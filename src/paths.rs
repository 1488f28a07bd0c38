use vstd::prelude::*;

verus! {

/// The character of a decimal digit.
pub open spec fn digit_char(d: nat) -> char {
    if d == 0 {
        '0'
    } else if d == 1 {
        '1'
    } else if d == 2 {
        '2'
    } else if d == 3 {
        '3'
    } else if d == 4 {
        '4'
    } else if d == 5 {
        '5'
    } else if d == 6 {
        '6'
    } else if d == 7 {
        '7'
    } else if d == 8 {
        '8'
    } else {
        '9'
    }
}

/// A natural number written in decimal, without leading zeros.
pub open spec fn decimal(n: nat) -> Seq<char>
    decreases n,
{
    if n < 10 {
        seq![digit_char(n)]
    } else {
        decimal(n / 10) + seq![digit_char(n % 10)]
    }
}

/// `s` when the flag is set, else nothing.
pub open spec fn flag_token(flag: bool, s: Seq<char>) -> Seq<char> {
    if flag {
        s
    } else {
        Seq::empty()
    }
}

/// The entity id of an optional argument, empty when there is none.
pub open spec fn id_or_empty(id: Option<&str>) -> Seq<char> {
    match id {
        Some(s) => s@,
        None => Seq::empty(),
    }
}

pub open spec fn history_path(
    id: Option<&str>,
    minimal_response: bool,
    no_attributes: bool,
    significant_changes_only: bool,
) -> Seq<char> {
    "/api/history/period?filter_entity_id="@ + id_or_empty(id) + flag_token(
        minimal_response,
        "&minimal_response"@,
    ) + flag_token(no_attributes, "&no_attributes"@) + flag_token(
        significant_changes_only,
        "&significant_changes_only"@,
    )
}

/// The logbook path: the entity id follows a bare `?`, which stays when there
/// is no id.
pub open spec fn logbook_path(id: Option<&str>) -> Seq<char> {
    "/api/logbook?"@ + id_or_empty(id)
}

/// The states path: the whole list when no id is given, else one entity.
pub open spec fn states_path(id: Option<&str>) -> Seq<char> {
    if id_or_empty(id).len() == 0 {
        "/api/states"@
    } else {
        "/api/states/"@ + id_or_empty(id)
    }
}

pub open spec fn camera_proxy_path(id: Seq<char>, time: u64) -> Seq<char> {
    "/api/camera_proxy/"@ + id + "?time="@ + decimal(time as nat)
}

pub open spec fn state_path(id: Seq<char>) -> Seq<char> {
    "/api/states/"@ + id
}

pub open spec fn event_path(event_type: Seq<char>) -> Seq<char> {
    "/api/events/"@ + event_type
}

pub open spec fn service_path(domain: Seq<char>, service: Seq<char>, return_response: bool) -> Seq<
    char,
> {
    "/api/services/"@ + domain + "/"@ + service + flag_token(return_response, "?return_response"@)
}

/// Appends one decimal digit.
fn push_digit(s: &mut String, d: u64)
    requires
        d < 10,
    ensures
        final(s)@ == old(s)@ + seq![digit_char(d as nat)],
{
    proof {
        reveal_strlit("0");
        reveal_strlit("1");
        reveal_strlit("2");
        reveal_strlit("3");
        reveal_strlit("4");
        reveal_strlit("5");
        reveal_strlit("6");
        reveal_strlit("7");
        reveal_strlit("8");
        reveal_strlit("9");
    }
    let digit = if d == 0 {
        "0"
    } else if d == 1 {
        "1"
    } else if d == 2 {
        "2"
    } else if d == 3 {
        "3"
    } else if d == 4 {
        "4"
    } else if d == 5 {
        "5"
    } else if d == 6 {
        "6"
    } else if d == 7 {
        "7"
    } else if d == 8 {
        "8"
    } else {
        "9"
    };
    s.append(digit);
}

/// Appends `n` written in decimal.
pub fn push_decimal(s: &mut String, n: u64)
    ensures
        final(s)@ == old(s)@ + decimal(n as nat),
    decreases n,
{
    if n >= 10 {
        push_decimal(s, n / 10);
        push_digit(s, n % 10);
        assert(final(s)@ =~= old(s)@ + decimal(n as nat));
    } else {
        push_digit(s, n);
    }
}

pub fn history(
    id: Option<&str>,
    minimal_response: bool,
    no_attributes: bool,
    significant_changes_only: bool,
) -> (r: String)
    ensures
        r@ == history_path(id, minimal_response, no_attributes, significant_changes_only),
{
    let mut p = String::from_str("/api/history/period?filter_entity_id=");
    if let Some(e) = id {
        p.append(e);
    }
    if minimal_response {
        p.append("&minimal_response");
    }
    if no_attributes {
        p.append("&no_attributes");
    }
    if significant_changes_only {
        p.append("&significant_changes_only");
    }
    assert(p@ =~= history_path(id, minimal_response, no_attributes, significant_changes_only));
    p
}

pub fn logbook(id: Option<&str>) -> (r: String)
    ensures
        r@ == logbook_path(id),
{
    let mut p = String::from_str("/api/logbook?");
    if let Some(e) = id {
        p.append(e);
    }
    assert(p@ =~= logbook_path(id));
    p
}

pub fn states(id: Option<&str>) -> (r: String)
    ensures
        r@ == states_path(id),
{
    match id {
        Some(e) => {
            if e.is_empty() {
                String::from_str("/api/states")
            } else {
                let mut p = String::from_str("/api/states/");
                p.append(e);
                p
            }
        },
        None => String::from_str("/api/states"),
    }
}

pub fn camera_proxy(id: &str, time: u64) -> (r: String)
    ensures
        r@ == camera_proxy_path(id@, time),
{
    let mut p = String::from_str("/api/camera_proxy/");
    p.append(id);
    p.append("?time=");
    push_decimal(&mut p, time);
    p
}

pub fn state(id: &str) -> (r: String)
    ensures
        r@ == state_path(id@),
{
    let mut p = String::from_str("/api/states/");
    p.append(id);
    p
}

pub fn event(event_type: &str) -> (r: String)
    ensures
        r@ == event_path(event_type@),
{
    let mut p = String::from_str("/api/events/");
    p.append(event_type);
    p
}

pub fn service(domain: &str, service_name: &str, return_response: bool) -> (r: String)
    ensures
        r@ == service_path(domain@, service_name@, return_response),
{
    let mut p = String::from_str("/api/services/");
    p.append(domain);
    p.append("/");
    p.append(service_name);
    if return_response {
        p.append("?return_response");
    }
    assert(p@ =~= service_path(domain@, service_name@, return_response));
    p
}

} // verus!
