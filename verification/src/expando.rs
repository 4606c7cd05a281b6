//! Meta-variable sigils and the expando character that stands in for them
//! while a pattern is parsed.

use vstd::prelude::*;

verus! {

/// The character that marks a meta-variable in a pattern as its author
/// writes it.
pub const META_VAR_SIGIL: char = '$';

/// `String::push` of the standard library appends one character to the
/// string and leaves the characters before it as they were.
pub assume_specification[ String::push ](s: &mut String, c: char)
    ensures
        final(s)@ == old(s)@.push(c),
;

/// Whether a character can start the name of a meta-variable: an upper-case
/// ASCII letter or an underscore.
pub open spec fn starts_name(c: char) -> bool {
    ('A' <= c && c <= 'Z') || c == '_'
}

/// Where the run of sigils that reaches place `i` from the left starts:
/// the first place that only sigils separate from `i`.
pub open spec fn run_start(text: Seq<char>, i: int) -> int
    decreases i,
{
    if 0 < i <= text.len() && text[i - 1] == META_VAR_SIGIL {
        run_start(text, i - 1)
    } else {
        i
    }
}

/// Where the run of sigils that starts at place `i` ends: the first place
/// from `i` on that holds no sigil, or the end of the text.
pub open spec fn run_end(text: Seq<char>, i: int) -> int
    decreases text.len() - i,
{
    if 0 <= i < text.len() && text[i] == META_VAR_SIGIL {
        run_end(text, i + 1)
    } else {
        i
    }
}

/// Whether the sigil at place `i` belongs to a meta-variable. The unbroken
/// run of sigils around it does when a character that can start a name
/// follows the run, or when the run is three sigils long.
pub open spec fn marks_meta_var(text: Seq<char>, i: int) -> bool {
    let start = run_start(text, i);
    let end = run_end(text, i);
    (end < text.len() && starts_name(text[end])) || end - start == 3
}

/// The pattern text made ready for the parser: every sigil that belongs to
/// a meta-variable is replaced by the expando character, and every other
/// character stays in its place.
pub open spec fn pre_processed(text: Seq<char>, expando: char) -> Seq<char> {
    Seq::new(
        text.len(),
        |i: int|
            if text[i] == META_VAR_SIGIL && marks_meta_var(text, i) {
                expando
            } else {
                text[i]
            },
    )
}

/// The text with every occurrence of `expando` replaced by the
/// meta-variable sigil, and every other character kept in place.
pub open spec fn restore_sigils(text: Seq<char>, expando: char) -> Seq<char> {
    text.map_values(|c: char| if c == expando { META_VAR_SIGIL } else { c })
}

/// A text that holds no expando character is its own restoration.
pub proof fn lemma_restore_sigils_without_expando(text: Seq<char>, expando: char)
    requires
        !text.contains(expando),
    ensures
        restore_sigils(text, expando) == text,
{
    assert(restore_sigils(text, expando) =~= text);
}

/// Restoring undoes the preparation: a pattern text in which the expando
/// character does not occur (or whose language needs none, its expando
/// being the sigil) is shown again exactly as its author wrote it.
pub proof fn law_pre_process_round_trip(text: Seq<char>, expando: char)
    requires
        expando == META_VAR_SIGIL || !text.contains(expando),
    ensures
        restore_sigils(pre_processed(text, expando), expando) == text,
{
    assert(restore_sigils(pre_processed(text, expando), expando) =~= text);
}

/// In a language whose expando character is the sigil, preparing a pattern
/// text changes nothing.
pub proof fn law_pre_process_without_expando(text: Seq<char>)
    ensures
        pre_processed(text, META_VAR_SIGIL) == text,
{
    assert(pre_processed(text, META_VAR_SIGIL) =~= text);
}

proof fn lemma_run_start(text: Seq<char>, start: int, i: int)
    requires
        0 <= start <= i <= text.len(),
        start == 0 || text[start - 1] != META_VAR_SIGIL,
        forall|k: int| start <= k < i ==> text[k] == META_VAR_SIGIL,
    ensures
        run_start(text, i) == start,
    decreases i - start,
{
    if start < i {
        lemma_run_start(text, start, i - 1);
    }
}

proof fn lemma_run_end(text: Seq<char>, i: int, end: int)
    requires
        0 <= i <= end <= text.len(),
        end == text.len() || text[end] != META_VAR_SIGIL,
        forall|k: int| i <= k < end ==> text[k] == META_VAR_SIGIL,
    ensures
        run_end(text, i) == end,
    decreases end - i,
{
    if i < end {
        lemma_run_end(text, i + 1, end);
    }
}

fn to_chars(text: &str) -> (chars: Vec<char>)
    ensures
        chars@ == text@,
{
    let mut chars: Vec<char> = Vec::new();
    for c in it: text.chars()
        invariant
            it.seq() == text@,
            chars@ == text@.take(it.index() as int),
    {
        chars.push(c);
    }
    assert(text@.take(text@.len() as int) =~= text@);
    chars
}

/// Tells whether a character can start the name of a meta-variable.
pub fn is_name_start(c: char) -> (yes: bool)
    ensures
        yes == starts_name(c),
{
    ('A' <= c && c <= 'Z') || c == '_'
}

/// Makes a pattern text ready for the parser of a language with the given
/// expando character.
pub fn pre_process_pattern(expando: char, query: &str) -> (ready: String)
    ensures
        ready@ == pre_processed(query@, expando),
{
    let chars = to_chars(query);
    let count = chars.len();
    let ghost text = query@;
    let ghost wanted = pre_processed(text, expando);
    let mut ready = String::new();
    let mut i: usize = 0;
    while i < count
        invariant
            i <= count,
            count == text.len(),
            chars@ == text,
            wanted == pre_processed(text, expando),
            ready@ == wanted.take(i as int),
            i == 0 || i == count || text[i - 1] != META_VAR_SIGIL || text[i as int]
                != META_VAR_SIGIL,
        decreases count - i,
    {
        let c = chars[i];
        if c != META_VAR_SIGIL {
            ready.push(c);
            assert(wanted.take(i + 1) =~= wanted.take(i as int).push(c));
            i += 1;
        } else {
            let start = i;
            let mut end = i + 1;
            while end < count && chars[end] == META_VAR_SIGIL
                invariant
                    start < end <= count,
                    count == text.len(),
                    chars@ == text,
                    forall|k: int| start <= k < end ==> text[k] == META_VAR_SIGIL,
                decreases count - end,
            {
                end += 1;
            }
            let named = end < count && is_name_start(chars[end]);
            let sigil = if named || end - start == 3 {
                expando
            } else {
                META_VAR_SIGIL
            };
            proof {
                assert(start == 0 || text[start - 1] != META_VAR_SIGIL);
                assert forall|k: int| start <= k < end implies wanted[k] == sigil by {
                    lemma_run_start(text, start as int, k);
                    lemma_run_end(text, k, end as int);
                }
            }
            let mut k = start;
            while k < end
                invariant
                    start <= k <= end <= count,
                    count == text.len(),
                    wanted.len() == text.len(),
                    ready@ == wanted.take(k as int),
                    forall|j: int| start <= j < end ==> wanted[j] == sigil,
                decreases end - k,
            {
                ready.push(sigil);
                assert(wanted.take(k + 1) =~= wanted.take(k as int).push(sigil));
                k += 1;
            }
            i = end;
        }
    }
    assert(wanted.take(count as int) =~= wanted);
    ready
}

/// Undoes the expando substitution in a captured text, so that it reads as
/// the pattern's author wrote it.
pub fn undo_expando(text: &str, expando: char) -> (out: String)
    ensures
        out@ == restore_sigils(text@, expando),
{
    let mut out = String::new();
    for c in it: text.chars()
        invariant
            it.seq() == text@,
            out@ == restore_sigils(text@.take(it.index() as int), expando),
    {
        out.push(if c == expando { META_VAR_SIGIL } else { c });
    }
    out
}

} // verus!
