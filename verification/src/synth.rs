//! The command synthesizer: a pure function that renders a `FormState` into
//! the textual command, one optional clause after another in a fixed order.

use vstd::prelude::*;
use vstd::string::{StrSliceExecFns, StringExecFns};

use crate::state::{Algorithm, FormState, DEFAULT_STYLIZE};
use crate::text::{push_dec, spec_dec, spec_trim, trimmed};

verus! {

/// What one suffix entry contributes to the command: `", "` and the trimmed
/// label when the entry is enabled and its trimmed label is non-empty,
/// nothing otherwise.
pub open spec fn spec_suffix_clause(entry: (String, bool)) -> Seq<char> {
    if entry.1 && spec_trim(entry.0@).len() > 0 {
        ", "@ + spec_trim(entry.0@)
    } else {
        Seq::<char>::empty()
    }
}

/// What the whole suffix list contributes, in order.
pub open spec fn spec_suffix_clauses(sfx: Seq<(String, bool)>) -> Seq<char>
    decreases sfx.len(),
{
    if sfx.len() == 0 {
        Seq::<char>::empty()
    } else {
        spec_suffix_clauses(sfx.drop_last()) + spec_suffix_clause(sfx.last())
    }
}

/// The stylize clause; the sentinel default strength emits nothing.
pub open spec fn spec_stylize_clause(stylize: u32) -> Seq<char> {
    if stylize != DEFAULT_STYLIZE {
        " --stylize "@ + spec_dec(stylize as nat)
    } else {
        Seq::<char>::empty()
    }
}

/// The aspect-ratio clause; a square 1:1 aspect emits nothing.
pub open spec fn spec_aspect_clause(w: u16, h: u16) -> Seq<char> {
    if w != 1 || h != 1 {
        " --ar "@ + spec_dec(w as nat) + ":"@ + spec_dec(h as nat)
    } else {
        Seq::<char>::empty()
    }
}

pub open spec fn spec_video_clause(video: bool) -> Seq<char> {
    if video {
        " --video"@
    } else {
        Seq::<char>::empty()
    }
}

/// The seed clause; without `use_seed` the stored seed value emits nothing.
pub open spec fn spec_seed_clause(use_seed: bool, seed: u32) -> Seq<char> {
    if use_seed {
        " --sameseed "@ + spec_dec(seed as nat)
    } else {
        Seq::<char>::empty()
    }
}

/// The algorithm clause; the default algorithm emits nothing.
pub open spec fn spec_algorithm_clause(a: Algorithm) -> Seq<char> {
    if a != Algorithm::V3 {
        " --"@ + a.spec_token()
    } else {
        Seq::<char>::empty()
    }
}

/// The full command for a form state: the prefix and the trimmed prompt text,
/// then each clause in its fixed place.
pub open spec fn spec_command(s: FormState) -> Seq<char> {
    "/imagine prompt: "@ + spec_trim(s.text@) + spec_suffix_clauses(s.suffixes@)
        + spec_stylize_clause(s.stylize) + spec_aspect_clause(s.aspect_w, s.aspect_h)
        + spec_video_clause(s.video) + spec_seed_clause(s.use_seed, s.seed)
        + spec_algorithm_clause(s.algorithm)
}

proof fn lemma_suffix_clauses_snoc(sfx: Seq<(String, bool)>, i: int)
    requires
        0 <= i < sfx.len(),
    ensures
        spec_suffix_clauses(sfx.subrange(0, i + 1)) == spec_suffix_clauses(sfx.subrange(0, i))
            + spec_suffix_clause(sfx[i]),
{
    assert(sfx.subrange(0, i + 1).drop_last() =~= sfx.subrange(0, i));
    assert(sfx.subrange(0, i + 1).last() == sfx[i]);
}

/// Renders the state into the command string. The result is a pure function
/// of the state, so repeated calls on an unchanged state give the same
/// string.
#[verifier::rlimit(60)]
pub fn synthesize(state: &FormState) -> (r: String)
    ensures
        r@ == spec_command(*state),
{
    let mut s = String::from_str("/imagine prompt: ");
    s.append(trimmed(state.text.as_str()));
    let ghost head = "/imagine prompt: "@ + spec_trim(state.text@);
    let mut i: usize = 0;
    proof {
        assert(state.suffixes@.subrange(0, 0) =~= Seq::<(String, bool)>::empty());
        assert(s@ =~= head + spec_suffix_clauses(state.suffixes@.subrange(0, 0)));
    }
    while i < state.suffixes.len()
        invariant
            0 <= i <= state.suffixes@.len(),
            s@ == head + spec_suffix_clauses(state.suffixes@.subrange(0, i as int)),
        decreases state.suffixes@.len() - i,
    {
        let entry = &state.suffixes[i];
        if entry.1 {
            let label = trimmed(entry.0.as_str());
            if label.unicode_len() > 0 {
                s.append(", ");
                s.append(label);
            }
        }
        proof {
            lemma_suffix_clauses_snoc(state.suffixes@, i as int);
            assert(s@ =~= head + spec_suffix_clauses(state.suffixes@.subrange(0, i + 1)));
        }
        i = i + 1;
    }
    proof {
        assert(state.suffixes@.subrange(0, state.suffixes@.len() as int) =~= state.suffixes@);
    }
    let ghost with_suffixes = head + spec_suffix_clauses(state.suffixes@);
    if state.stylize != DEFAULT_STYLIZE {
        s.append(" --stylize ");
        push_dec(&mut s, state.stylize);
    }
    proof {
        assert(s@ =~= with_suffixes + spec_stylize_clause(state.stylize));
    }
    let ghost with_stylize = with_suffixes + spec_stylize_clause(state.stylize);
    if state.aspect_w != 1 || state.aspect_h != 1 {
        s.append(" --ar ");
        push_dec(&mut s, state.aspect_w as u32);
        s.append(":");
        push_dec(&mut s, state.aspect_h as u32);
    }
    proof {
        assert(s@ =~= with_stylize + spec_aspect_clause(state.aspect_w, state.aspect_h));
    }
    let ghost with_aspect = with_stylize + spec_aspect_clause(state.aspect_w, state.aspect_h);
    if state.video {
        s.append(" --video");
    }
    proof {
        assert(s@ =~= with_aspect + spec_video_clause(state.video));
    }
    let ghost with_video = with_aspect + spec_video_clause(state.video);
    if state.use_seed {
        s.append(" --sameseed ");
        push_dec(&mut s, state.seed);
    }
    proof {
        assert(s@ =~= with_video + spec_seed_clause(state.use_seed, state.seed));
    }
    let ghost with_seed = with_video + spec_seed_clause(state.use_seed, state.seed);
    if !matches!(state.algorithm, Algorithm::V3) {
        s.append(" --");
        s.append(state.algorithm.token());
    }
    proof {
        assert(s@ =~= with_seed + spec_algorithm_clause(state.algorithm));
        assert(s@ =~= spec_command(*state));
    }
    s
}

/// Whether this frame should write the command to the clipboard: either
/// copy-on-change is set and the command differs from the previous frame's,
/// or copy-on-change is off and the user asked explicitly. Either way a
/// whitespace-only prompt suppresses the copy.
pub fn wants_copy(state: &FormState, previous: &String, copy_requested: bool) -> (r: bool)
    ensures
        r == ((state.copy_on_change && spec_command(*state) != previous@ || !state.copy_on_change
            && copy_requested) && spec_trim(state.text@).len() > 0),
{
    let current = synthesize(state);
    let triggered = if state.copy_on_change {
        !current.eq(previous)
    } else {
        copy_requested
    };
    triggered && trimmed(state.text.as_str()).unicode_len() > 0
}

/// The status line shown after a successful clipboard write.
pub fn copied_status(command: &str) -> (r: String)
    ensures
        r@ == "copied command:\n"@ + command@,
{
    let mut s = String::from_str("copied command:\n");
    s.append(command);
    s
}

/// The status line shown when the clipboard write failed; `detail` is the
/// failure's own description.
pub fn copy_error_status(detail: &str) -> (r: String)
    ensures
        r@ == "error copying command: "@ + detail@,
{
    let mut s = String::from_str("error copying command: ");
    s.append(detail);
    s
}

/// Synthesis is pure: the command is a function of the state alone, so two
/// renderings of an unchanged state are the same string.
pub proof fn lemma_synthesize_pure(s: FormState, r1: Seq<char>, r2: Seq<char>)
    requires
        r1 == spec_command(s),
        r2 == spec_command(s),
    ensures
        r1 == r2,
{
}

/// With the seed disabled, the stored seed value never shows in the command:
/// two states that differ only in `seed` render identically.
pub proof fn lemma_unused_seed_invisible(s1: FormState, s2: FormState)
    requires
        !s1.use_seed,
        s2.use_seed == s1.use_seed,
        s2.text == s1.text,
        s2.suffixes == s1.suffixes,
        s2.algorithm == s1.algorithm,
        s2.aspect_w == s1.aspect_w,
        s2.aspect_h == s1.aspect_h,
        s2.stylize == s1.stylize,
        s2.video == s1.video,
    ensures
        spec_command(s2) == spec_command(s1),
{
}

/// A disabled suffix, or one whose trimmed label is empty, contributes
/// nothing: dropping it from the list leaves the suffix clauses unchanged,
/// wherever in the list it stands.
pub proof fn lemma_inactive_suffix_dropped(sfx: Seq<(String, bool)>, i: int)
    requires
        0 <= i < sfx.len(),
        !sfx[i].1 || spec_trim(sfx[i].0@).len() == 0,
    ensures
        spec_suffix_clauses(sfx.remove(i)) == spec_suffix_clauses(sfx),
    decreases sfx.len(),
{
    if i == sfx.len() - 1 {
        assert(sfx.remove(i) =~= sfx.drop_last());
        assert(spec_suffix_clause(sfx.last()) =~= Seq::<char>::empty());
        assert(spec_suffix_clauses(sfx.drop_last()) + Seq::<char>::empty()
            =~= spec_suffix_clauses(sfx.drop_last()));
    } else {
        lemma_inactive_suffix_dropped(sfx.drop_last(), i);
        assert(sfx.remove(i).drop_last() =~= sfx.drop_last().remove(i));
        assert(sfx.remove(i).last() == sfx.last());
    }
}

/// A disabled or blank suffix is invisible in the whole command: a state with
/// such an entry renders exactly as the state without it.
pub proof fn lemma_inactive_suffix_invisible(s1: FormState, s2: FormState, i: int)
    requires
        0 <= i < s1.suffixes@.len(),
        !s1.suffixes@[i].1 || spec_trim(s1.suffixes@[i].0@).len() == 0,
        s2.suffixes@ == s1.suffixes@.remove(i),
        s2.text == s1.text,
        s2.algorithm == s1.algorithm,
        s2.aspect_w == s1.aspect_w,
        s2.aspect_h == s1.aspect_h,
        s2.stylize == s1.stylize,
        s2.video == s1.video,
        s2.use_seed == s1.use_seed,
        s2.seed == s1.seed,
    ensures
        spec_command(s2) == spec_command(s1),
{
    lemma_inactive_suffix_dropped(s1.suffixes@, i);
}

} // verus!
