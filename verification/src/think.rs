//! The filter that hides reasoning blocks from what observers see.
//!
//! A model may wrap its reasoning in `<think>` ... `</think>`. The raw text,
//! markers included, stays in the model's context; observers get only what
//! lies outside those blocks. Output arrives in chunks, so the filter carries
//! one bit across calls: whether the last chunk ended inside a block.

use vstd::prelude::*;
use crate::text::{
    chars_of, find_from, first_occurrence, is_first_occurrence, lemma_first_occurrence_absent,
    lemma_first_occurrence_found, occurs_at, push_range, skip_whitespace, string_of,
    trim_start_text,
};

verus! {

/// The marker that opens a reasoning block.
pub open spec fn open_marker() -> Seq<char> {
    seq!['<', 't', 'h', 'i', 'n', 'k', '>']
}

/// The marker that closes a reasoning block.
pub open spec fn close_marker() -> Seq<char> {
    seq!['<', '/', 't', 'h', 'i', 'n', 'k', '>']
}

/// The visible part of `text`, and whether `text` ends inside a block.
///
/// `inside` says whether the scan starts inside a block. `seam` says whether
/// a block was closed just before `text`: the visible text that comes next
/// then loses its leading white space.
pub open spec fn scan(text: Seq<char>, inside: bool, seam: bool) -> (Seq<char>, bool)
    decreases text.len(),
    via scan_terminates
{
    if inside {
        match first_occurrence(text, close_marker()) {
            Some(at) => scan(text.skip(at + close_marker().len()), false, true),
            None => (Seq::empty(), true),
        }
    } else {
        match first_occurrence(text, open_marker()) {
            Some(at) => {
                let rest = scan(text.skip(at + open_marker().len()), true, false);
                (shown(text.take(at), seam) + rest.0, rest.1)
            },
            None => (shown(text, seam), false),
        }
    }
}

#[via_fn]
proof fn scan_terminates(text: Seq<char>, inside: bool, seam: bool) {
    lemma_first_occurrence_in_range(text, close_marker());
    lemma_first_occurrence_in_range(text, open_marker());
}

/// A stretch of visible text as it is shown: trimmed at the start where it
/// follows the end of a block.
pub open spec fn shown(segment: Seq<char>, seam: bool) -> Seq<char> {
    if seam {
        trim_start_text(segment)
    } else {
        segment
    }
}

/// What observers see of one chunk.
pub open spec fn visible_text(chunk: Seq<char>, inside: bool) -> Seq<char> {
    scan(chunk, inside, false).0
}

/// Whether the chunk ends inside a reasoning block.
pub open spec fn ends_inside(chunk: Seq<char>, inside: bool) -> bool {
    scan(chunk, inside, false).1
}

fn open_marker_chars() -> (out: Vec<char>)
    ensures
        out@ == open_marker(),
{
    let mut out: Vec<char> = Vec::new();
    out.push('<');
    out.push('t');
    out.push('h');
    out.push('i');
    out.push('n');
    out.push('k');
    out.push('>');
    assert(out@ =~= open_marker());
    out
}

fn close_marker_chars() -> (out: Vec<char>)
    ensures
        out@ == close_marker(),
{
    let mut out: Vec<char> = Vec::new();
    out.push('<');
    out.push('/');
    out.push('t');
    out.push('h');
    out.push('i');
    out.push('n');
    out.push('k');
    out.push('>');
    assert(out@ =~= close_marker());
    out
}

/// Where the first occurrence is, it lies within the text.
proof fn lemma_first_occurrence_in_range(text: Seq<char>, pattern: Seq<char>)
    ensures
        match first_occurrence(text, pattern) {
            Some(at) => 0 <= at <= text.len() - pattern.len(),
            None => true,
        },
{
    if let Some(at) = first_occurrence(text, pattern) {
        assert(is_first_occurrence(text, pattern, at));
    }
}

/// Filters one chunk of model output.
///
/// Returns what observers see of `text` and leaves in `in_think` whether the
/// chunk ends inside a reasoning block. Every open and every close marker in
/// the chunk is honoured, in order. Visible text that directly follows a
/// close marker loses its leading white space; no other character outside a
/// block is dropped. A marker that is split between two chunks is not
/// recognised.
pub fn strip_think_tags(text: &str, in_think: &mut bool) -> (out: String)
    ensures
        out@ == visible_text(text@, *old(in_think)),
        *final(in_think) == ends_inside(text@, *old(in_think)),
{
    let chars = chars_of(text);
    let open = open_marker_chars();
    let close = close_marker_chars();
    let mut shown_chars: Vec<char> = Vec::new();
    let mut pos: usize = 0;
    let mut seam = false;
    let ghost start_inside = *in_think;
    assert(chars@.skip(0) =~= chars@);
    while pos < chars.len()
        invariant
            pos <= chars.len(),
            chars@ == text@,
            open@ == open_marker(),
            close@ == close_marker(),
            scan(text@, start_inside, false).0 == shown_chars@ + scan(
                chars@.skip(pos as int),
                *in_think,
                seam,
            ).0,
            scan(text@, start_inside, false).1 == scan(chars@.skip(pos as int), *in_think, seam).1,
        decreases chars.len() - pos,
    {
        let ghost tail = chars@.skip(pos as int);
        if *in_think {
            proof {
                lemma_first_occurrence_in_range(tail, close_marker());
            }
            match find_from(&chars, &close, pos) {
                Some(at) => {
                    assert(tail.skip(at - pos + close_marker().len()) =~= chars@.skip(
                        at + close_marker().len(),
                    ));
                    *in_think = false;
                    seam = true;
                    pos = at + close.len();
                },
                None => {
                    let n = chars.len();
                    assert(chars@.skip(n as int) =~= Seq::<char>::empty());
                    proof {
                        lemma_scan_empty(true, seam);
                    }
                    pos = n;
                },
            }
        } else {
            proof {
                lemma_first_occurrence_in_range(tail, open_marker());
            }
            match find_from(&chars, &open, pos) {
                Some(at) => {
                    let from = if seam {
                        skip_whitespace(&chars, pos, at)
                    } else {
                        pos
                    };
                    assert(tail.take(at - pos) =~= chars@.subrange(pos as int, at as int));
                    assert(tail.skip(at - pos + open_marker().len()) =~= chars@.skip(
                        at + open_marker().len(),
                    ));
                    let ghost before = shown_chars@;
                    push_range(&mut shown_chars, &chars, from, at);
                    assert(shown_chars@ == before + shown(tail.take(at - pos), seam));
                    assert(before + (shown(tail.take(at - pos), seam) + scan(
                        chars@.skip(at + open_marker().len()),
                        true,
                        false,
                    ).0) =~= shown_chars@ + scan(
                        chars@.skip(at + open_marker().len()),
                        true,
                        false,
                    ).0);
                    *in_think = true;
                    seam = false;
                    pos = at + open.len();
                },
                None => {
                    let n = chars.len();
                    let from = if seam {
                        skip_whitespace(&chars, pos, n)
                    } else {
                        pos
                    };
                    assert(tail =~= chars@.subrange(pos as int, n as int));
                    assert(chars@.skip(from as int) =~= chars@.subrange(from as int, n as int));
                    let ghost before = shown_chars@;
                    push_range(&mut shown_chars, &chars, from, n);
                    assert(shown_chars@ == before + shown(tail, seam));
                    assert(chars@.skip(n as int) =~= Seq::<char>::empty());
                    proof {
                        lemma_scan_empty(false, false);
                    }
                    assert(shown_chars@ + Seq::<char>::empty() =~= shown_chars@);
                    seam = false;
                    pos = n;
                },
            }
        }
    }
    proof {
        assert(chars@.skip(pos as int) =~= Seq::<char>::empty());
        lemma_scan_empty(*in_think, seam);
        assert(shown_chars@ + Seq::<char>::empty() =~= shown_chars@);
    }
    string_of(&shown_chars)
}

/// Nothing is visible of an empty text, and the state stays as it was.
pub proof fn lemma_scan_empty(inside: bool, seam: bool)
    ensures
        scan(Seq::<char>::empty(), inside, seam) == (Seq::<char>::empty(), inside),
{
    let nothing = Seq::<char>::empty();
    assert forall|i: int| !occurs_at(nothing, close_marker(), i) by {}
    assert forall|i: int| !occurs_at(nothing, open_marker(), i) by {}
    lemma_first_occurrence_absent(nothing, close_marker());
    lemma_first_occurrence_absent(nothing, open_marker());
    assert(trim_start_text(nothing) =~= nothing);
}

/// Outside a block, text without an open marker passes through unchanged,
/// white space included, and the filter stays outside.
pub proof fn lemma_plain_text_passes(text: Seq<char>)
    requires
        has_no_open_marker(text),
    ensures
        visible_text(text, false) == text,
        !ends_inside(text, false),
{
    lemma_first_occurrence_absent(text, open_marker());
}

/// Inside a block, text without a close marker is hidden whole, and the
/// filter stays inside.
pub proof fn lemma_unclosed_text_is_hidden(text: Seq<char>)
    requires
        has_no_close_marker(text),
    ensures
        visible_text(text, true) == Seq::<char>::empty(),
        ends_inside(text, true),
{
    lemma_first_occurrence_absent(text, close_marker());
}

/// Whether `text` holds no open marker.
pub open spec fn has_no_open_marker(text: Seq<char>) -> bool {
    forall|i: int| !occurs_at(text, open_marker(), i)
}

/// Whether `text` holds no close marker.
pub open spec fn has_no_close_marker(text: Seq<char>) -> bool {
    forall|i: int| !occurs_at(text, close_marker(), i)
}

/// A marker begins with `<` and holds no other `<`.
proof fn lemma_marker_shape(marker: Seq<char>)
    requires
        marker == open_marker() || marker == close_marker(),
    ensures
        marker.len() > 0,
        marker[0] == '<',
        forall|k: int| 0 < k < marker.len() ==> #[trigger] marker[k] != '<',
{
    if marker == open_marker() {
        assert(marker.len() == 7);
        assert(marker[0] == '<' && marker[1] == 't' && marker[2] == 'h' && marker[3] == 'i');
        assert(marker[4] == 'n' && marker[5] == 'k' && marker[6] == '>');
    } else {
        assert(marker.len() == 8);
        assert(marker[0] == '<' && marker[1] == '/' && marker[2] == 't' && marker[3] == 'h');
        assert(marker[4] == 'i' && marker[5] == 'n' && marker[6] == 'k' && marker[7] == '>');
    }
}

/// The three parts of a text that is made of three parts.
proof fn lemma_three_parts(before: Seq<char>, middle: Seq<char>, after: Seq<char>)
    ensures
        (before + middle + after).len() == before.len() + middle.len() + after.len(),
        (before + middle + after).take(before.len() as int) == before,
        (before + middle + after).subrange(
            before.len() as int,
            (before.len() + middle.len()) as int,
        ) == middle,
        (before + middle + after).skip((before.len() + middle.len()) as int) == after,
{
    let text = before + middle + after;
    let from = before.len() as int;
    let to = (before.len() + middle.len()) as int;
    assert(text.take(from) =~= before);
    assert(text.subrange(from, to) =~= middle);
    assert(text.skip(to) =~= after);
}

/// No marker begins in the text before a marker, if that text holds none.
proof fn lemma_no_earlier_marker(before: Seq<char>, marker: Seq<char>, after: Seq<char>, j: int)
    requires
        marker == open_marker() || marker == close_marker(),
        !occurs_at(before, marker, j),
        j < before.len(),
    ensures
        !occurs_at(before + marker + after, marker, j),
{
    let text = before + marker + after;
    let at = before.len() as int;
    let m = marker.len() as int;
    lemma_marker_shape(marker);
    if occurs_at(text, marker, j) {
        let found = text.subrange(j, j + m);
        if j + m <= at {
            assert forall|k: int| 0 <= k < m implies before.subrange(j, j + m)[k] == marker[k] by {
                assert(found[k] == text[j + k]);
                assert(text[j + k] == before[j + k]);
            }
            assert(before.subrange(j, j + m) =~= marker);
        } else {
            let k = at - j;
            assert(found[k] == text[at]);
            assert(text[at] == marker[0]);
        }
    }
}

/// A marker that follows text without that marker is the first of its kind.
proof fn lemma_marker_after_plain_text(before: Seq<char>, marker: Seq<char>, after: Seq<char>)
    requires
        marker == open_marker() || marker == close_marker(),
        forall|i: int| !occurs_at(before, marker, i),
    ensures
        first_occurrence(before + marker + after, marker) == Some(before.len() as int),
        (before + marker + after).take(before.len() as int) == before,
        (before + marker + after).skip((before.len() + marker.len()) as int) == after,
{
    let text = before + marker + after;
    let at = before.len() as int;
    lemma_three_parts(before, marker, after);
    assert(occurs_at(text, marker, at));
    assert forall|j: int| j < at implies !occurs_at(text, marker, j) by {
        lemma_no_earlier_marker(before, marker, after, j);
    }
    lemma_first_occurrence_found(text, marker, at);
}

/// Outside a block, what stands before the first open marker is shown, and
/// the scan goes on inside the block with what follows the marker.
pub proof fn lemma_block_opens(before: Seq<char>, after: Seq<char>, seam: bool)
    requires
        has_no_open_marker(before),
    ensures
        scan(before + open_marker() + after, false, seam) == (
            shown(before, seam) + scan(after, true, false).0,
            scan(after, true, false).1,
        ),
{
    lemma_marker_after_plain_text(before, open_marker(), after);
}

/// Inside a block, what stands before the first close marker is hidden, and
/// the scan goes on outside with what follows the marker, trimmed at its
/// start.
pub proof fn lemma_block_closes(hidden: Seq<char>, after: Seq<char>, seam: bool)
    requires
        has_no_close_marker(hidden),
    ensures
        scan(hidden + close_marker() + after, true, seam) == scan(after, false, true),
{
    lemma_marker_after_plain_text(hidden, close_marker(), after);
}

/// A whole block in one chunk is cut out: of `before<think>hidden</think>after`
/// observers see `before` and then `after` without its leading white space,
/// and the filter is outside again.
pub proof fn lemma_block_is_cut_out(before: Seq<char>, hidden: Seq<char>, after: Seq<char>)
    requires
        has_no_open_marker(before),
        has_no_close_marker(hidden),
        has_no_open_marker(after),
    ensures
        visible_text(
            before + open_marker() + (hidden + close_marker() + after),
            false,
        ) == before + trim_start_text(after),
        !ends_inside(before + open_marker() + (hidden + close_marker() + after), false),
{
    let inner = hidden + close_marker() + after;
    lemma_block_opens(before, inner, false);
    lemma_block_closes(hidden, after, false);
    lemma_first_occurrence_absent(after, open_marker());
}

/// A block that is split between two chunks is hidden all the same: of
/// `before<think>first` observers see `before`, and of `second</think>after`,
/// which follows, they see `after` without its leading white space.
pub proof fn lemma_split_block_is_hidden(
    before: Seq<char>,
    first: Seq<char>,
    second: Seq<char>,
    after: Seq<char>,
)
    requires
        has_no_open_marker(before),
        has_no_close_marker(first),
        has_no_close_marker(second),
        has_no_open_marker(after),
    ensures
        visible_text(before + open_marker() + first, false) == before,
        ends_inside(before + open_marker() + first, false),
        visible_text(second + close_marker() + after, true) == trim_start_text(after),
        !ends_inside(second + close_marker() + after, true),
{
    lemma_block_opens(before, first, false);
    lemma_first_occurrence_absent(first, close_marker());
    assert(before + Seq::<char>::empty() =~= before);
    lemma_block_closes(second, after, false);
    lemma_first_occurrence_absent(after, open_marker());
}

} // verus!
