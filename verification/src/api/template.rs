//! URL templates and the substitution of their placeholders.

use vstd::prelude::*;
use vstd::string::*;
use crate::util::text::chars_of;

verus! {

/// The placeholder that stands for the assigned device ID.
pub open spec fn device_mark() -> Seq<char> {
    seq!['{', 'd', 'I', 'D', '}']
}

/// The placeholder that stands for the OS-install ID.
pub open spec fn os_mark() -> Seq<char> {
    seq!['{', 'o', 's', 'I', 'D', '}']
}

/// A template with each placeholder replaced by its value.
///
/// The template is read once, left to right. Where a placeholder starts, its
/// value is written out and reading goes on behind the placeholder; any other
/// character is copied. The values themselves are never read again, so what
/// one of them holds cannot turn into a placeholder for the other.
pub open spec fn substitute(template: Seq<char>, device: Seq<char>, os: Seq<char>) -> Seq<char>
    decreases template.len(),
{
    if template.len() == 0 {
        Seq::empty()
    } else if device_mark().is_prefix_of(template) {
        device + substitute(template.skip(5), device, os)
    } else if os_mark().is_prefix_of(template) {
        os + substitute(template.skip(6), device, os)
    } else {
        seq![template[0]] + substitute(template.skip(1), device, os)
    }
}

/// No character of `s` opens a placeholder.
pub open spec fn plain(s: Seq<char>) -> bool {
    forall|i: int| 0 <= i < s.len() ==> s[i] != '{'
}

/// Whether `mark` stands in `text` at position `at`.
fn stands_at(text: &Vec<char>, at: usize, mark: &Vec<char>) -> (found: bool)
    requires
        at <= text.len(),
    ensures
        found == mark@.is_prefix_of(text@.skip(at as int)),
{
    if mark.len() > text.len() - at {
        return false;
    }
    let mut j: usize = 0;
    while j < mark.len()
        invariant
            j <= mark.len(),
            at + mark.len() <= text.len(),
            forall|k: int| 0 <= k < j ==> mark@[k] == text@[at + k],
        decreases mark.len() - j,
    {
        if mark[j] != text[at + j] {
            return false;
        }
        j += 1;
    }
    true
}

/// Replaces `{dID}` by `device` and `{osID}` by `os` in `template`.
pub fn fill(template: &str, device: &str, os: &str) -> (url: String)
    ensures
        url@ == substitute(template@, device@, os@),
{
    let text = chars_of(template);
    let device_mark = chars_of("{dID}");
    let os_mark = chars_of("{osID}");
    proof {
        reveal_strlit("{dID}");
        reveal_strlit("{osID}");
    }
    let mut url = String::new();
    // The stretch from `copied` up to `i` has been read and is still to be written.
    let mut copied: usize = 0;
    let mut i: usize = 0;
    assert(text@.skip(0) =~= template@);
    while i < text.len()
        invariant
            copied <= i <= text.len(),
            text@ == template@,
            device_mark@ == self::device_mark(),
            os_mark@ == self::os_mark(),
            url@ + text@.subrange(copied as int, i as int) + substitute(
                text@.skip(i as int),
                device@,
                os@,
            ) == substitute(template@, device@, os@),
        decreases text.len() - i,
    {
        let ghost rest = text@.skip(i as int);
        if stands_at(&text, i, &device_mark) {
            assert(rest.skip(5) =~= text@.skip(i + 5));
            url.append(template.substring_char(copied, i));
            url.append(device);
            i += 5;
            copied = i;
        } else if stands_at(&text, i, &os_mark) {
            assert(rest.skip(6) =~= text@.skip(i + 6));
            url.append(template.substring_char(copied, i));
            url.append(os);
            i += 6;
            copied = i;
        } else {
            assert(rest.skip(1) =~= text@.skip(i + 1));
            i += 1;
        }
    }
    url.append(template.substring_char(copied, i));
    assert(text@.skip(i as int) =~= Seq::<char>::empty());
    url
}

/// A stretch without an opening brace is copied as it stands.
pub proof fn lemma_plain_prefix(
    head: Seq<char>,
    rest: Seq<char>,
    device: Seq<char>,
    os: Seq<char>,
)
    requires
        plain(head),
    ensures
        substitute(head + rest, device, os) == head + substitute(rest, device, os),
    decreases head.len(),
{
    if head.len() > 0 {
        let whole = head + rest;
        assert(!device_mark().is_prefix_of(whole));
        assert(!os_mark().is_prefix_of(whole));
        assert(whole.skip(1) =~= head.skip(1) + rest);
        lemma_plain_prefix(head.skip(1), rest, device, os);
        assert(seq![head[0]] + (head.skip(1) + substitute(rest, device, os)) =~= head + substitute(
            rest,
            device,
            os,
        ));
    }
}

/// The device placeholder gives the device ID, whatever follows it.
pub proof fn lemma_device_mark(rest: Seq<char>, device: Seq<char>, os: Seq<char>)
    ensures
        substitute(device_mark() + rest, device, os) == device + substitute(rest, device, os),
{
    let whole = device_mark() + rest;
    assert(whole.skip(5) =~= rest);
}

/// The OS-install placeholder gives the OS-install ID, whatever follows it.
pub proof fn lemma_os_mark(rest: Seq<char>, device: Seq<char>, os: Seq<char>)
    ensures
        substitute(os_mark() + rest, device, os) == os + substitute(rest, device, os),
{
    let whole = os_mark() + rest;
    assert(whole.skip(6) =~= rest);
    assert(!device_mark().is_prefix_of(whole));
}

/// A placeholder between two stretches of plain text, the device placeholder
/// first: what stands behind the OS-install placeholder is plain.
proof fn lemma_device_then_os(
    a: Seq<char>,
    b: Seq<char>,
    c: Seq<char>,
    device: Seq<char>,
    os: Seq<char>,
)
    requires
        plain(a),
        plain(b),
        plain(c),
    ensures
        substitute(a + device_mark() + b + os_mark() + c, device, os) == a + device + b + os + c,
{
    let t3 = os_mark() + c;
    let t2 = b + t3;
    let t1 = device_mark() + t2;
    let r3 = os + c;
    let r2 = b + r3;
    let r1 = device + r2;
    assert(substitute(c, device, os) == c) by {
        lemma_plain_prefix(c, Seq::empty(), device, os);
    }
    assert(substitute(t3, device, os) == r3) by {
        lemma_os_mark(c, device, os);
    }
    assert(substitute(t2, device, os) == r2) by {
        lemma_plain_prefix(b, t3, device, os);
    }
    assert(substitute(t1, device, os) == r1) by {
        lemma_device_mark(t2, device, os);
    }
    assert(substitute(a + t1, device, os) == a + r1) by {
        lemma_plain_prefix(a, t1, device, os);
    }
    assert(a + device_mark() + b + os_mark() + c =~= a + t1);
    assert(a + device + b + os + c =~= a + r1);
}

/// The same with the OS-install placeholder first.
proof fn lemma_os_then_device(
    a: Seq<char>,
    b: Seq<char>,
    c: Seq<char>,
    device: Seq<char>,
    os: Seq<char>,
)
    requires
        plain(a),
        plain(b),
        plain(c),
    ensures
        substitute(a + os_mark() + b + device_mark() + c, device, os) == a + os + b + device + c,
{
    let t3 = device_mark() + c;
    let t2 = b + t3;
    let t1 = os_mark() + t2;
    let r3 = device + c;
    let r2 = b + r3;
    let r1 = os + r2;
    assert(substitute(c, device, os) == c) by {
        lemma_plain_prefix(c, Seq::empty(), device, os);
    }
    assert(substitute(t3, device, os) == r3) by {
        lemma_device_mark(c, device, os);
    }
    assert(substitute(t2, device, os) == r2) by {
        lemma_plain_prefix(b, t3, device, os);
    }
    assert(substitute(t1, device, os) == r1) by {
        lemma_os_mark(t2, device, os);
    }
    assert(substitute(a + t1, device, os) == a + r1) by {
        lemma_plain_prefix(a, t1, device, os);
    }
    assert(a + os_mark() + b + device_mark() + c =~= a + t1);
}

/// Substitution is independent: in a template that holds both placeholders
/// between stretches of plain text, each placeholder gives its own value and
/// nothing else, in either order and whatever the two values hold.
pub proof fn lemma_substitution_independent(
    a: Seq<char>,
    b: Seq<char>,
    c: Seq<char>,
    device: Seq<char>,
    os: Seq<char>,
)
    requires
        plain(a),
        plain(b),
        plain(c),
    ensures
        substitute(a + device_mark() + b + os_mark() + c, device, os) == a + device + b + os + c,
        substitute(a + os_mark() + b + device_mark() + c, device, os) == a + os + b + device + c,
{
    lemma_device_then_os(a, b, c, device, os);
    lemma_os_then_device(a, b, c, device, os);
}

} // verus!
