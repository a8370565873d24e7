//! Finding the local OSDs from the names of the admin sockets, and the
//! schedule of the polling rounds.

use vstd::prelude::*;
use crate::decimal::parse_u64_text;

verus! {

/// The pattern of an OSD admin socket's file name, such as `ceph-osd.1.asok`;
/// the group `number` holds the OSD number.
pub const OSD_SOCKET_PATTERN: &'static str = "ceph-osd.(?P<number>\\d+).asok";

/// The name of the group of `OSD_SOCKET_PATTERN` that holds the OSD number.
pub const OSD_NUMBER_GROUP: &'static str = "number";

/// What the regex crate gives for the group `group` of the pattern `pattern`
/// in `text`: nothing when the pattern does not compile; `Some(None)` when the
/// pattern does not match or the group takes no part in the match; else the
/// text of the group in the leftmost-first match.
pub uninterp spec fn regex_named_capture(
    pattern: Seq<char>,
    text: Seq<char>,
    group: Seq<char>,
) -> Option<Option<Seq<char>>>;

/// `regex::Regex::new(pattern)`, then `captures(text)` and `name(group)` on the
/// result. Trusted: the outcome is named by `regex_named_capture`, a function of
/// the three texts alone; nothing more is claimed of it.
#[verifier::external_body]
fn capture_named(pattern: &str, text: &str, group: &str) -> (r: Option<Option<String>>)
    ensures
        r.deep_view() == regex_named_capture(pattern@, text@, group@),
{
    let re = match regex::Regex::new(pattern) {
        Ok(re) => re,
        Err(_) => return None,
    };
    match re.captures(text) {
        Some(caps) => match caps.name(group) {
            Some(m) => Some(Some(m.as_str().to_string())),
            None => Some(None),
        },
        None => Some(None),
    }
}

/// What the socket file `name` says of the local OSDs: `Some(None)` when it is
/// not an OSD socket, `Some(Some(n))` for the socket of OSD `n`, and nothing
/// when the name matches but its number cannot be read (or the pattern does
/// not compile) -- the cases in which the collector cannot go on.
pub open spec fn socket_osd_number(name: Seq<char>) -> Option<Option<u64>> {
    capture_osd_number(regex_named_capture(OSD_SOCKET_PATTERN@, name, OSD_NUMBER_GROUP@))
}

/// What a capture of the OSD number group says: nothing when the pattern did
/// not compile; `Some(None)` when there was no match; else the number its
/// digits give, or nothing when they give none (not ASCII digits, or too large).
pub open spec fn capture_osd_number(capture: Option<Option<Seq<char>>>) -> Option<Option<u64>> {
    match capture {
        None => None,
        Some(None) => Some(None),
        Some(Some(digits)) => match parse_u64_text(digits) {
            Some(n) => Some(Some(n)),
            None => None,
        },
    }
}

/// The numbers of the OSDs whose sockets are named in `names`, in the order
/// of the names; nothing when one of the names cannot be read.
pub open spec fn osd_numbers_of(names: Seq<Seq<char>>) -> Option<Seq<u64>>
    decreases names.len(),
{
    if names.len() == 0 {
        Some(seq![])
    } else {
        match (osd_numbers_of(names.drop_last()), socket_osd_number(names.last())) {
            (Some(ns), Some(None)) => Some(ns),
            (Some(ns), Some(Some(n))) => Some(ns.push(n)),
            _ => None,
        }
    }
}

proof fn lemma_unreadable_prefix(names: Seq<Seq<char>>, k: int)
    requires
        0 <= k <= names.len(),
        osd_numbers_of(names.take(k)) is None,
    ensures
        osd_numbers_of(names) is None,
    decreases names.len(),
{
    if k == names.len() {
        assert(names.take(k) =~= names);
    } else {
        assert(names.drop_last().take(k) =~= names.take(k));
        lemma_unreadable_prefix(names.drop_last(), k);
    }
}

/// What the socket file `name` says of the local OSDs (see `socket_osd_number`).
pub fn osd_number_of_socket(name: &str) -> (r: Option<Option<u64>>)
    ensures
        r == socket_osd_number(name@),
{
    let capture = capture_named(OSD_SOCKET_PATTERN, name, OSD_NUMBER_GROUP);
    osd_number_from_capture(capture)
}

/// What the capture `capture` of the OSD number group says (see `capture_osd_number`).
pub fn osd_number_from_capture(capture: Option<Option<String>>) -> (r: Option<Option<u64>>)
    ensures
        r == capture_osd_number(capture.deep_view()),
{
    match capture {
        None => None,
        Some(None) => Some(None),
        Some(Some(digits)) => match crate::decimal::parse_u64(digits.as_str()) {
            Some(n) => Some(Some(n)),
            None => None,
        },
    }
}

/// The numbers of the OSDs whose admin sockets are named in `names`, in the
/// order of the names, skipping every other file; nothing when a name matches
/// the OSD socket pattern but its number cannot be read.
pub fn osd_numbers_from_socket_names(names: &Vec<String>) -> (r: Option<Vec<u64>>)
    ensures
        match r {
            Some(v) => osd_numbers_of(names@.map_values(|s: String| s@)) == Some(v@),
            None => osd_numbers_of(names@.map_values(|s: String| s@)) is None,
        },
{
    let ghost all = names@.map_values(|s: String| s@);
    let mut out: Vec<u64> = Vec::new();
    let mut i: usize = 0;
    while i < names.len()
        invariant
            i <= names@.len(),
            all == names@.map_values(|s: String| s@),
            osd_numbers_of(all.take(i as int)) == Some(out@),
        decreases names@.len() - i,
    {
        let ghost before = all.take(i as int);
        assert(all.take(i + 1).drop_last() =~= before);
        assert(all.take(i + 1).last() == names@[i as int]@);
        match osd_number_of_socket(names[i].as_str()) {
            None => {
                proof {
                    lemma_unreadable_prefix(all, i + 1);
                }
                return None;
            },
            Some(None) => {},
            Some(Some(n)) => {
                out.push(n);
            },
        }
        i = i + 1;
    }
    assert(all.take(names@.len() as int) =~= all);
    Some(out)
}

/// The round that follows round `round`, and whether the OSD list and the
/// monitor role are looked up again in it: every tenth round.
pub fn next_round(round: i32) -> (r: (i32, bool))
    requires
        round < i32::MAX,
    ensures
        r.0 == round + 1,
        r.1 == ((round + 1) % 10 == 0),
{
    let next = round + 1;
    (next, next % 10 == 0)
}

/// What a round does about the monitor, given whether this host is a monitor
/// and, when it is, whether its perf dump could be read: the dump is logged
/// when it was read; the monitor role is looked up again when it was not.
pub fn monitor_step(is_monitor: bool, dump_read: bool) -> (r: (bool, bool))
    ensures
        r.0 == (is_monitor && dump_read),
        r.1 == (is_monitor && !dump_read),
{
    (is_monitor && dump_read, is_monitor && !dump_read)
}

/// The lookups come back every ten rounds: a round is due for one exactly when
/// the round ten later is.
pub proof fn lookup_every_ten_rounds(round: int)
    ensures
        (round % 10 == 0) == ((round + 10) % 10 == 0),
{
}

/// Whether `name` is the admin socket of some OSD whose number can be read.
pub open spec fn names_osd_socket(name: Seq<char>) -> bool {
    socket_osd_number(name) is Some && socket_osd_number(name)->0 is Some
}

/// When every name is that of an OSD's admin socket, the OSD numbers found are
/// one per name, in the order of the names: the number of each name's socket,
/// whatever it is (OSD 0 included).
pub proof fn every_socket_gives_its_number(names: Seq<Seq<char>>)
    requires
        forall|i: int| 0 <= i < names.len() ==> #[trigger] names_osd_socket(names[i]),
    ensures
        osd_numbers_of(names) == Some(
            Seq::new(names.len(), |i: int| socket_osd_number(names[i])->0->0),
        ),
    decreases names.len(),
{
    let f = |i: int| socket_osd_number(names[i])->0->0;
    if names.len() == 0 {
        assert(Seq::new(0, f) =~= Seq::<u64>::empty());
    } else {
        let init = names.drop_last();
        assert forall|i: int| 0 <= i < init.len() implies #[trigger] names_osd_socket(init[i]) by {
            assert(init[i] == names[i]);
            assert(names_osd_socket(names[i]));
        }
        every_socket_gives_its_number(init);
        let g = |i: int| socket_osd_number(init[i])->0->0;
        assert(names_osd_socket(names[names.len() - 1]));
        assert(Seq::new(init.len(), g).push(socket_osd_number(names.last())->0->0) =~= Seq::new(
            names.len(),
            f,
        ));
    }
}

/// One name that matches the OSD socket pattern but whose number cannot be
/// read (or a pattern that does not compile) leaves no list of OSDs at all,
/// wherever the name stands.
pub proof fn unreadable_socket_gives_nothing(names: Seq<Seq<char>>, k: int)
    requires
        0 <= k < names.len(),
        socket_osd_number(names[k]) is None,
    ensures
        osd_numbers_of(names) is None,
{
    let prefix = names.take(k + 1);
    assert(prefix.last() == names[k]);
    assert(osd_numbers_of(prefix) is None);
    lemma_unreadable_prefix(names, k + 1);
}

/// One more file name: a file that is no OSD socket leaves the OSD numbers as
/// they were, and the socket of OSD `n` adds `n` after them.
pub proof fn one_more_socket_name(names: Seq<Seq<char>>, name: Seq<char>)
    ensures
        socket_osd_number(name) == Some(None::<u64>) ==> osd_numbers_of(names.push(name))
            == osd_numbers_of(names),
        socket_osd_number(name) matches Some(Some(n)) ==> osd_numbers_of(names.push(name)) == (
        match osd_numbers_of(names) {
            Some(ns) => Some(ns.push(n)),
            None => None,
        }),
{
    assert(names.push(name).drop_last() =~= names);
    assert(names.push(name).last() == name);
}

} // verus!
