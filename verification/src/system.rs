//! Decisions the server takes about the machine it runs on: its resource limits, the user
//! and group it drops to, and the interface of the default route. The system calls that
//! read and apply them are made by the caller.

use vstd::prelude::*;
use crate::negotiation::{lines, lines_of};
use crate::text::{chars_of, parse_u32, parsed_u32, push_char, str_eq, views};

verus! {

/// The soft limit set for open files: the hard limit, but at least 1024 and at most 65536.
pub open spec fn nofile_soft_limit_of(hard: u64) -> u64 {
    let capped = if hard < 65536 { hard } else { 65536 };
    if capped > 1024 { capped } else { 1024 }
}

/// The soft limit set for processes: the hard limit, but at least 256 and at most 4096.
pub open spec fn nproc_soft_limit_of(hard: u64) -> u64 {
    let capped = if hard < 4096 { hard } else { 4096 };
    if capped > 256 { capped } else { 256 }
}

/// The soft limit for open files, given the hard limit.
pub fn nofile_soft_limit(hard: u64) -> (r: u64)
    ensures
        r == nofile_soft_limit_of(hard),
{
    let capped = if hard < 65536 { hard } else { 65536 };
    if capped > 1024 { capped } else { 1024 }
}

/// The soft limit for processes, given the hard limit.
pub fn nproc_soft_limit(hard: u64) -> (r: u64)
    ensures
        r == nproc_soft_limit_of(hard),
{
    let capped = if hard < 4096 { hard } else { 4096 };
    if capped > 256 { capped } else { 256 }
}

/// The user or group id to drop to: the number in the environment variable when it reads
/// as one, otherwise the id of `nobody` when there is one.
pub open spec fn target_id_of(env_value: Option<Seq<char>>, nobody: Option<u32>) -> Option<u32> {
    match env_value {
        Some(v) => match parsed_u32(v) {
            Some(n) => Some(n),
            None => nobody,
        },
        None => nobody,
    }
}

/// The user or group id to drop to.
pub fn target_id(env_value: Option<&str>, nobody: Option<u32>) -> (r: Option<u32>)
    ensures
        r == target_id_of(
            match env_value {
                Some(v) => Some(v@),
                None => None,
            },
            nobody,
        ),
{
    match env_value {
        Some(v) => match parse_u32(v) {
            Some(n) => Some(n),
            None => nobody,
        },
        None => nobody,
    }
}

/// Whitespace as `char::is_whitespace` defines it: the Unicode `White_Space` characters.
pub open spec fn is_white_space(c: char) -> bool {
    ('\u{9}' <= c && c <= '\u{d}') || c == ' ' || c == '\u{85}' || c == '\u{a0}' || c == '\u{1680}'
        || ('\u{2000}' <= c && c <= '\u{200a}') || c == '\u{2028}' || c == '\u{2029}' || c == '\u{202f}'
        || c == '\u{205f}' || c == '\u{3000}'
}

/// Reading a line character by character: the fields finished so far and the one being read.
pub open spec fn field_scan(s: Seq<char>) -> (Seq<Seq<char>>, Seq<char>)
    decreases s.len(),
{
    if s.len() == 0 {
        (seq![], seq![])
    } else {
        let (done, cur) = field_scan(s.drop_last());
        let c = s.last();
        if is_white_space(c) {
            if cur.len() > 0 {
                (done.push(cur), seq![])
            } else {
                (done, seq![])
            }
        } else {
            (done, cur.push(c))
        }
    }
}

/// The fields of a line (`str::split_whitespace`): its maximal runs of non-whitespace
/// characters, in order.
pub open spec fn fields_of(s: Seq<char>) -> Seq<Seq<char>> {
    let (done, cur) = field_scan(s);
    if cur.len() > 0 {
        done.push(cur)
    } else {
        done
    }
}

/// The whitespace-separated fields of a line.
pub fn split_fields(s: &str) -> (r: Vec<String>)
    ensures
        views(r@) == fields_of(s@),
{
    let a = chars_of(s);
    let mut done: Vec<String> = Vec::new();
    let mut cur = String::new();
    let mut i: usize = 0;
    assert(a@.subrange(0, 0) =~= Seq::<char>::empty());
    while i < a.len()
        invariant
            a@ == s@,
            i <= a@.len(),
            (views(done@), cur@) == field_scan(a@.subrange(0, i as int)),
        decreases a@.len() - i,
    {
        let c = a[i];
        let ghost prefix = a@.subrange(0, i + 1);
        assert(prefix.drop_last() =~= a@.subrange(0, i as int));
        assert(prefix.last() == c);
        let ws = ('\u{9}' <= c && c <= '\u{d}') || c == ' ' || c == '\u{85}' || c == '\u{a0}'
            || c == '\u{1680}' || ('\u{2000}' <= c && c <= '\u{200a}') || c == '\u{2028}'
            || c == '\u{2029}' || c == '\u{202f}' || c == '\u{205f}' || c == '\u{3000}';
        if ws {
            if !crate::text::str_is_empty(cur.as_str()) {
                let mut finished = String::new();
                std::mem::swap(&mut finished, &mut cur);
                let ghost before = views(done@);
                done.push(finished);
                assert(views(done@) =~= before.push(finished@));
            } else {
                cur = String::new();
            }
        } else {
            push_char(&mut cur, c);
        }
        i = i + 1;
    }
    assert(a@.subrange(0, a@.len() as int) =~= a@);
    if !crate::text::str_is_empty(cur.as_str()) {
        let ghost before = views(done@);
        let ghost last = cur@;
        done.push(cur);
        assert(views(done@) =~= before.push(last));
    }
    done
}

/// The interface of the default route in a routing table laid out as `/proc/net/route`:
/// the first field of the first line after the header whose second field is `00000000`.
pub open spec fn default_route_iface(table_lines: Seq<Seq<char>>) -> Option<Seq<char>>
    decreases table_lines.len(),
{
    if table_lines.len() <= 1 {
        None
    } else {
        let f = fields_of(table_lines[1]);
        if f.len() >= 2 && f[1] == "00000000"@ {
            Some(f[0])
        } else {
            default_route_iface(table_lines.drop_first())
        }
    }
}

/// The interface of the default route, from the text of the routing table.
pub fn default_interface(route_table: &str) -> (r: Option<String>)
    ensures
        match default_route_iface(lines_of(route_table@)) {
            Some(name) => r matches Some(n) && n@ == name,
            None => r is None,
        },
{
    let ls = lines(route_table);
    let ghost all = views(ls@);
    if ls.len() == 0 {
        return None;
    }
    let mut i: usize = 1;
    assert(all.skip(0) =~= all);
    while i < ls.len()
        invariant
            1 <= i <= ls@.len(),
            all == views(ls@),
            all == lines_of(route_table@),
            default_route_iface(all.skip(i - 1)) == default_route_iface(all),
        decreases ls@.len() - i,
    {
        let ghost rest = all.skip(i - 1);
        assert(rest[1] == ls@[i as int]@);
        let fields = split_fields(ls[i].as_str());
        if fields.len() >= 2 && str_eq(fields[1].as_str(), "00000000") {
            proof {
                assert(views(fields@)[1] == fields@[1]@);
                assert(views(fields@)[0] == fields@[0]@);
            }
            return Some(fields[0].clone());
        }
        proof {
            if fields@.len() >= 2 {
                assert(views(fields@)[1] == fields@[1]@);
            }
        }
        assert(rest.drop_first() =~= all.skip(i as int));
        i = i + 1;
    }
    assert(all.skip(i - 1).len() <= 1);
    None
}

} // verus!
