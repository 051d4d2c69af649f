//! Checks on the arguments of `start_stream` and `start_sender`.
use crate::errors::{PortRejectReason, StartSenderError, StartStreamError};
use vstd::prelude::*;

verus! {

/// First port that needs no privilege.
pub const FIRST_UNPRIVILEGED_PORT: u16 = 1024;

/// A letter, a digit or a hyphen.
pub open spec fn is_label_char(c: char) -> bool {
    'a' <= c <= 'z' || 'A' <= c <= 'Z' || '0' <= c <= '9' || c == '-'
}

/// A non-empty run of letters, digits and hyphens.
pub open spec fn is_label(s: Seq<char>) -> bool {
    s.len() > 0 && forall|i: int| 0 <= i < s.len() ==> is_label_char(#[trigger] s[i])
}

/// `s` is made of the labels `service` and `protocol` as in `_service._protocol.local.`
pub open spec fn is_name_of(s: Seq<char>, service: Seq<char>, protocol: Seq<char>) -> bool {
    s == seq!['_'] + service + seq!['.', '_'] + protocol + ".local."@
}

/// The names that are accepted: `_service._protocol.local.` with two labels.
pub open spec fn is_service_name(s: Seq<char>) -> bool {
    exists|service: Seq<char>, protocol: Seq<char>|
        is_label(service) && is_label(protocol) && #[trigger] is_name_of(s, service, protocol)
}

/// `t` ends with `suffix`.
pub open spec fn ends_with(t: Seq<char>, suffix: Seq<char>) -> bool {
    t.len() >= suffix.len() && t.skip(t.len() - suffix.len()) == suffix
}

/// `d` is the place of the only dot in `t`.
pub open spec fn is_only_dot(t: Seq<char>, d: int) -> bool {
    &&& 0 <= d < t.len()
    &&& t[d] == '.'
    &&& forall|i: int| 0 <= i < t.len() && i != d ==> t[i] != '.'
}

/// What is wrong with one segment of a name.
pub enum SegmentFault {
    NoUnderscore,
    Empty,
    BadCharacter,
}

/// The first rule that a segment breaks.
pub open spec fn segment_fault(segment: Seq<char>) -> Option<SegmentFault> {
    if segment.len() == 0 || segment[0] != '_' {
        Some(SegmentFault::NoUnderscore)
    } else if segment.len() == 1 {
        Some(SegmentFault::Empty)
    } else if !is_label(segment.skip(1)) {
        Some(SegmentFault::BadCharacter)
    } else {
        None
    }
}

/// What precedes the suffix.
pub open spec fn head_of(s: Seq<char>) -> Seq<char> {
    s.take(s.len() - ".local."@.len())
}

/// The reason for which a name is rejected, by the first rule that it breaks; `None` where it
/// breaks none.
pub open spec fn name_fault(s: Seq<char>) -> Option<Seq<char>> {
    let head = head_of(s);
    let dot = choose|d: int| is_only_dot(head, d);
    if !ends_with(s, ".local."@) {
        Some("must end with '.local.'"@)
    } else if !(exists|d: int| is_only_dot(head, d)) {
        Some("must contain exactly one '.' separating service and protocol"@)
    } else {
        match segment_fault(head.take(dot)) {
            Some(SegmentFault::NoUnderscore) => Some("service segment must start with '_'"@),
            Some(SegmentFault::Empty) => Some("service segment must not be empty after '_'"@),
            Some(SegmentFault::BadCharacter) => Some(
                "service segment may only contain [A-Za-z0-9-]"@,
            ),
            None => match segment_fault(head.skip(dot + 1)) {
                Some(SegmentFault::NoUnderscore) => Some("protocol segment must start with '_'"@),
                Some(SegmentFault::Empty) => Some("protocol segment must not be empty after '_'"@),
                Some(SegmentFault::BadCharacter) => Some(
                    "protocol segment may only contain [A-Za-z0-9-]"@,
                ),
                None => None,
            },
        }
    }
}

/// A name is accepted exactly when it has the form `_service._protocol.local.` with two labels.
pub proof fn law_accepted_names(s: Seq<char>)
    ensures
        name_fault(s) is None <==> is_service_name(s),
{
    reveal_strlit(".local.");
    let head = head_of(s);
    if name_fault(s) is None {
        let dot = choose|d: int| is_only_dot(head, d);
        let service = head.take(dot).skip(1);
        let protocol = head.skip(dot + 1).skip(1);
        assert(s =~= head + ".local."@);
        assert(is_name_of(s, service, protocol)) by {
            assert(s =~= seq!['_'] + service + seq!['.', '_'] + protocol + ".local."@);
        }
    }
    if is_service_name(s) {
        let (service, protocol) = choose|service: Seq<char>, protocol: Seq<char>|
            is_label(service) && is_label(protocol) && #[trigger] is_name_of(s, service, protocol);
        let d: int = 1 + service.len() as int;
        assert(s.skip(s.len() - 7) =~= ".local."@);
        assert(head =~= seq!['_'] + service + seq!['.', '_'] + protocol);
        assert forall|i: int| 0 <= i < head.len() && i != d implies head[i] != '.' by {
            if 1 <= i < d {
                assert(head[i] == service[i - 1]);
            } else if i > d + 1 {
                assert(head[i] == protocol[i - d - 2]);
            }
        }
        assert(is_only_dot(head, d));
        let dot = choose|d: int| is_only_dot(head, d);
        assert(dot == d);
        assert(head.take(d).skip(1) =~= service);
        assert(head.skip(d + 1).skip(1) =~= protocol);
    }
}

/// The characters of `s`.
fn chars_of(s: &str) -> (v: Vec<char>)
    ensures
        v@ == s@,
{
    let mut v: Vec<char> = Vec::new();
    for c in it: s.chars()
        invariant
            v@ =~= s@.take(it.index() as int),
            it.seq() == s@,
    {
        v.push(c);
    }
    v
}

/// Is `c` a letter, a digit or a hyphen?
fn label_char(c: char) -> (b: bool)
    ensures
        b == is_label_char(c),
{
    ('a' <= c && c <= 'z') || ('A' <= c && c <= 'Z') || ('0' <= c && c <= '9') || c == '-'
}

/// Does `v` end with `suffix`?
fn has_suffix(v: &Vec<char>, suffix: &Vec<char>) -> (b: bool)
    ensures
        b == ends_with(v@, suffix@),
{
    if v.len() < suffix.len() {
        return false;
    }
    let start: usize = v.len() - suffix.len();
    let mut i: usize = 0;
    while i < suffix.len()
        invariant
            i <= suffix.len(),
            start == v.len() - suffix.len(),
            forall|j: int| 0 <= j < i ==> v@[start + j] == suffix@[j],
        decreases suffix.len() - i,
    {
        if v[start + i] != suffix[i] {
            assert(v@.skip(start as int)[i as int] != suffix@[i as int]);
            return false;
        }
        i += 1;
    }
    assert(v@.skip(start as int) =~= suffix@);
    true
}

/// The place of the only dot among the first `end` characters, if there is exactly one.
fn only_dot(v: &Vec<char>, end: usize) -> (r: Option<usize>)
    requires
        end <= v.len(),
    ensures
        match r {
            Some(d) => is_only_dot(v@.take(end as int), d as int),
            None => !(exists|d: int| is_only_dot(v@.take(end as int), d)),
        },
{
    let ghost head = v@.take(end as int);
    let mut found: Option<usize> = None;
    let mut i: usize = 0;
    while i < end
        invariant
            i <= end <= v.len(),
            head == v@.take(end as int),
            match found {
                Some(d) => d < i && is_only_dot(head.take(i as int), d as int),
                None => forall|j: int| 0 <= j < i ==> head[j] != '.',
            },
        decreases end - i,
    {
        if v[i] == '.' {
            match found {
                Some(d) => {
                    assert forall|e: int| !is_only_dot(head, e) by {
                        assert(head[i as int] == '.');
                        assert(head.take(i as int)[d as int] == '.');
                    }
                    return None;
                },
                None => {
                    found = Some(i);
                },
            }
        }
        assert forall|j: int| 0 <= j < i implies head.take(i + 1)[j] == head.take(i as int)[j] by {}
        i += 1;
    }
    assert(head.take(end as int) =~= head);
    proof {
        if found is None {
            assert forall|e: int| !is_only_dot(head, e) by {}
        }
    }
    found
}

/// The first rule broken by the segment that lies at `from..to`.
fn check_segment(v: &Vec<char>, from: usize, to: usize) -> (r: Option<SegmentFault>)
    requires
        from <= to <= v.len(),
    ensures
        r == segment_fault(v@.subrange(from as int, to as int)),
{
    let ghost segment = v@.subrange(from as int, to as int);
    if from == to || v[from] != '_' {
        return Some(SegmentFault::NoUnderscore);
    }
    if from + 1 == to {
        return Some(SegmentFault::Empty);
    }
    let mut i: usize = from + 1;
    while i < to
        invariant
            from < i <= to <= v.len(),
            segment == v@.subrange(from as int, to as int),
            segment[0] == '_',
            forall|j: int| from < j < i ==> is_label_char(v@[j]),
        decreases to - i,
    {
        if !label_char(v[i]) {
            assert(!is_label_char(segment.skip(1)[i - from - 1]));
            return Some(SegmentFault::BadCharacter);
        }
        i += 1;
    }
    None
}

/// The reason for which `s` is no service name, or `None` where it is one.
fn check_service_name(s: &str) -> (r: Option<&'static str>)
    ensures
        match r {
            Some(reason) => name_fault(s@) == Some(reason@),
            None => name_fault(s@) is None,
        },
{
    let v = chars_of(s);
    let suffix = chars_of(".local.");
    if !has_suffix(&v, &suffix) {
        return Some("must end with '.local.'");
    }
    let end: usize = v.len() - suffix.len();
    let ghost head = head_of(s@);
    let dot = match only_dot(&v, end) {
        Some(d) => d,
        None => {
            return Some("must contain exactly one '.' separating service and protocol");
        },
    };
    proof {
        let chosen = choose|d: int| is_only_dot(head, d);
        assert(is_only_dot(head, dot as int));
        assert(is_only_dot(head, chosen));
        assert(chosen == dot);
        assert(head.take(dot as int) =~= v@.subrange(0, dot as int));
        assert(head.skip(dot + 1) =~= v@.subrange(dot + 1, end as int));
    }
    match check_segment(&v, 0, dot) {
        Some(SegmentFault::NoUnderscore) => Some("service segment must start with '_'"),
        Some(SegmentFault::Empty) => Some("service segment must not be empty after '_'"),
        Some(SegmentFault::BadCharacter) => Some("service segment may only contain [A-Za-z0-9-]"),
        None => match check_segment(&v, dot + 1, end) {
            Some(SegmentFault::NoUnderscore) => Some("protocol segment must start with '_'"),
            Some(SegmentFault::Empty) => Some("protocol segment must not be empty after '_'"),
            Some(SegmentFault::BadCharacter) => Some(
                "protocol segment may only contain [A-Za-z0-9-]",
            ),
            None => None,
        },
    }
}

/// Rejects the ports a receiver cannot use: 0, and the privileged range.
pub fn validate_udp_port(value: u16) -> (r: Result<(), StartStreamError>)
    ensures
        r == (if value == 0 {
            Err(
                (StartStreamError::InvalidPort { value, reason: PortRejectReason::Zero }),
            )
        } else if value < FIRST_UNPRIVILEGED_PORT {
            Err(
                (StartStreamError::InvalidPort { value, reason: PortRejectReason::Privileged }),
            )
        } else {
            Ok::<(), StartStreamError>(())
        }),
{
    if value == 0 {
        return Err(StartStreamError::InvalidPort { value, reason: PortRejectReason::Zero });
    }
    if value < FIRST_UNPRIVILEGED_PORT {
        return Err(StartStreamError::InvalidPort { value, reason: PortRejectReason::Privileged });
    }
    Ok(())
}

/// Rejects the privileged range. Port 0 is allowed: the system then picks a free port.
pub fn validate_udp_port_for_sender(value: u16) -> (r: Result<(), StartSenderError>)
    ensures
        r == (if 1 <= value < FIRST_UNPRIVILEGED_PORT {
            Err(
                (StartSenderError::InvalidPort { value, reason: PortRejectReason::Privileged }),
            )
        } else {
            Ok::<(), StartSenderError>(())
        }),
{
    if 1 <= value && value < FIRST_UNPRIVILEGED_PORT {
        return Err(StartSenderError::InvalidPort { value, reason: PortRejectReason::Privileged });
    }
    Ok(())
}

/// Accepts the names of the form `_service._protocol.local.`, where both labels are made of
/// letters, digits and hyphens. A rejection carries the name and the first rule it breaks.
pub fn validate_service_name(s: &str) -> (r: Result<(), StartStreamError>)
    ensures
        match name_fault(s@) {
            None => r is Ok,
            Some(why) => r matches Err(StartStreamError::InvalidServiceName { value, reason })
                && value@ == s@ && reason@ == why,
        },
        r is Ok <==> is_service_name(s@),
{
    proof {
        law_accepted_names(s@);
    }
    match check_service_name(s) {
        None => Ok(()),
        Some(reason) => Err(
            StartStreamError::InvalidServiceName {
                value: s.to_string(),
                reason: reason.to_string(),
            },
        ),
    }
}

/// The same rule for the sender, with the sender's error type.
pub fn validate_service_name_for_sender(s: &str) -> (r: Result<(), StartSenderError>)
    ensures
        match name_fault(s@) {
            None => r is Ok,
            Some(why) => r matches Err(StartSenderError::InvalidServiceName { value, reason })
                && value@ == s@ && reason@ == why,
        },
        r is Ok <==> is_service_name(s@),
{
    match validate_service_name(s) {
        Ok(()) => Ok(()),
        Err(StartStreamError::InvalidServiceName { value, reason }) => Err(
            StartSenderError::InvalidServiceName { value, reason },
        ),
        Err(other) => Err(StartSenderError::BundleBuildFailed(other.message())),
    }
}

/// Which ports are taken. A receiver takes none below 1024, and says of 0 that it is zero and of the
/// others that they are privileged. A sender takes 0 as well.
pub proof fn law_ports(
    value: u16,
    receiver: Result<(), StartStreamError>,
    sender: Result<(), StartSenderError>,
)
    requires
        call_ensures(validate_udp_port, (value,), receiver),
        call_ensures(validate_udp_port_for_sender, (value,), sender),
    ensures
        receiver is Ok <==> value >= 1024,
        value == 0 ==> receiver == Err::<(), StartStreamError>(
            StartStreamError::InvalidPort { value: 0, reason: PortRejectReason::Zero },
        ),
        1 <= value < 1024 ==> receiver == Err::<(), StartStreamError>(
            StartStreamError::InvalidPort { value, reason: PortRejectReason::Privileged },
        ),
        sender is Ok <==> value == 0 || value >= 1024,
        1 <= value < 1024 ==> sender == Err::<(), StartSenderError>(
            StartSenderError::InvalidPort { value, reason: PortRejectReason::Privileged },
        ),
{
}

/// The characters of a label, by their codes: the letters of either case, the digits, the hyphen.
pub proof fn law_label_characters(c: char)
    ensures
        is_label_char(c) <==> 97 <= c as int <= 122 || 65 <= c as int <= 90 || 48 <= c as int <= 57
            || c as int == 45,
{
}

/// Every name of the right form is accepted: an underscore, letters, digits and hyphens, a dot, an
/// underscore, letters, digits and hyphens, and `.local.` at the end.
pub proof fn law_names_of_the_right_form(service: Seq<char>, protocol: Seq<char>)
    requires
        service.len() > 0,
        protocol.len() > 0,
        forall|i: int| 0 <= i < service.len() ==> is_label_char(#[trigger] service[i]),
        forall|i: int| 0 <= i < protocol.len() ==> is_label_char(#[trigger] protocol[i]),
    ensures
        name_fault(
            seq!['_'] + service + seq!['.', '_'] + protocol + seq![
                '.',
                'l',
                'o',
                'c',
                'a',
                'l',
                '.',
            ],
        ) is None,
{
    reveal_strlit(".local.");
    let end = seq!['.', 'l', 'o', 'c', 'a', 'l', '.'];
    let s = seq!['_'] + service + seq!['.', '_'] + protocol + end;
    assert(end =~= ".local."@);
    assert(is_name_of(s, service, protocol));
    law_accepted_names(s);
}

/// Why a name is rejected, by the first rule that it breaks: the suffix, then the one dot before it,
/// then the segment before that dot, then the one behind it. Of a segment, it is the underscore in
/// front, then that something follows it, then the characters. A name that breaks none is accepted.
pub proof fn law_why_a_name_is_rejected(head: Seq<char>, d: int, s: Seq<char>)
    requires
        s == head + seq!['.', 'l', 'o', 'c', 'a', 'l', '.'],
        0 <= d < head.len(),
        head[d] == '.',
        forall|i: int| 0 <= i < head.len() && i != d ==> head[i] != '.',
    ensures
        ({
            let service_labelled = forall|i: int| 1 <= i < d ==> is_label_char(#[trigger] head[i]);
            let protocol_labelled = forall|i: int|
                d + 2 <= i < head.len() ==> is_label_char(#[trigger] head[i]);
            let service_starts = d > 0 && head[0] == '_';
            let protocol_starts = head.len() > d + 1 && head[d + 1] == '_';
            let service_good = service_starts && d > 1 && service_labelled;
            &&& !service_starts ==> name_fault(s) == Some("service segment must start with '_'"@)
            &&& service_starts && d == 1 ==> name_fault(s) == Some(
                "service segment must not be empty after '_'"@,
            )
            &&& service_starts && d > 1 && !service_labelled ==> name_fault(s) == Some(
                "service segment may only contain [A-Za-z0-9-]"@,
            )
            &&& service_good && !protocol_starts ==> name_fault(s) == Some(
                "protocol segment must start with '_'"@,
            )
            &&& service_good && protocol_starts && head.len() == d + 2 ==> name_fault(s) == Some(
                "protocol segment must not be empty after '_'"@,
            )
            &&& service_good && protocol_starts && head.len() > d + 2 && !protocol_labelled
                ==> name_fault(s) == Some("protocol segment may only contain [A-Za-z0-9-]"@)
            &&& service_good && protocol_starts && head.len() > d + 2 && protocol_labelled
                ==> name_fault(s) is None
        }),
{
    reveal_strlit(".local.");
    let end = seq!['.', 'l', 'o', 'c', 'a', 'l', '.'];
    assert(end =~= ".local."@);
    assert(s.skip(s.len() - 7) =~= ".local."@);
    assert(head_of(s) =~= head);
    assert(is_only_dot(head, d));
    let dot = choose|e: int| is_only_dot(head, e);
    assert(dot == d);
    let service = head.take(d);
    let protocol = head.skip(d + 1);
    if d > 0 {
        let label = service.skip(1);
        assert forall|i: int| 0 <= i < label.len() implies label[i] == head[i + 1] by {}
        if forall|i: int| 1 <= i < d ==> is_label_char(#[trigger] head[i]) {
            assert forall|i: int| 0 <= i < label.len() implies is_label_char(
                #[trigger] label[i],
            ) by {
                assert(label[i] == head[i + 1]);
            }
        } else {
            let i = choose|i: int| 1 <= i < d && !is_label_char(#[trigger] head[i]);
            assert(label[i - 1] == head[i]);
        }
    }
    if head.len() > d + 1 {
        let label = protocol.skip(1);
        if forall|i: int| d + 2 <= i < head.len() ==> is_label_char(#[trigger] head[i]) {
            assert forall|i: int| 0 <= i < label.len() implies is_label_char(
                #[trigger] label[i],
            ) by {
                assert(label[i] == head[i + d + 2]);
            }
        } else {
            let i = choose|i: int|
                d + 2 <= i < head.len() && !is_label_char(#[trigger] head[i]);
            assert(label[i - d - 2] == head[i]);
        }
    }
}

/// A name without the suffix is rejected for that, whatever else is wrong with it. One with the suffix
/// and no dot before it, or with two of them, is rejected for that.
pub proof fn law_suffix_and_dot(s: Seq<char>, head: Seq<char>, d: int, e: int)
    ensures
        s.len() < 7 || s.skip(s.len() - 7) != seq!['.', 'l', 'o', 'c', 'a', 'l', '.']
            ==> name_fault(s) == Some("must end with '.local.'"@),
        s == head + seq!['.', 'l', 'o', 'c', 'a', 'l', '.'] && (!head.contains('.') || (0 <= d < e
            < head.len() && head[d] == '.' && head[e] == '.')) ==> name_fault(s) == Some(
            "must contain exactly one '.' separating service and protocol"@,
        ),
{
    reveal_strlit(".local.");
    let end = seq!['.', 'l', 'o', 'c', 'a', 'l', '.'];
    assert(end =~= ".local."@);
    if s == head + end {
        assert(s.skip(s.len() - 7) =~= ".local."@);
        assert(head_of(s) =~= head);
    }
}

/// What is said of a rejected name: the name itself and the reason, on either side.
pub proof fn law_rejections_carry_the_name(
    s: &str,
    receiver: Result<(), StartStreamError>,
    sender: Result<(), StartSenderError>,
)
    requires
        call_ensures(validate_service_name, (s,), receiver),
        call_ensures(validate_service_name_for_sender, (s,), sender),
    ensures
        receiver is Ok <==> name_fault(s@) is None,
        sender is Ok <==> name_fault(s@) is None,
        name_fault(s@) matches Some(why) ==> {
            &&& receiver matches Err(StartStreamError::InvalidServiceName { value, reason })
            &&& value@ == s@
            &&& reason@ == why
        },
        name_fault(s@) matches Some(why) ==> {
            &&& sender matches Err(StartSenderError::InvalidServiceName { value, reason })
            &&& value@ == s@
            &&& reason@ == why
        },
{
}

} // verus!
