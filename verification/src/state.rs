//! The form state: every field the user edits, plus the persisted projection
//! of it (the fields that survive a restart).

use vstd::prelude::*;
use vstd::string::StringExecFns;

verus! {

/// The stylize strength that means "omit the stylize clause from the command".
pub const DEFAULT_STYLIZE: u32 = 2500;

/// Which rendering algorithm the command asks for. `V3` is the default and
/// emits no flag of its own.
#[derive(Clone, Copy, PartialEq, Eq, Structural, Debug)]
pub enum Algorithm {
    V3,
    Test,
    TestPhoto,
}

impl Algorithm {
    /// The textual token of the algorithm, as it appears after `--` in the
    /// command (and as a label in a UI).
    pub open spec fn spec_token(self) -> Seq<char> {
        match self {
            Algorithm::V3 => "v3"@,
            Algorithm::Test => "test"@,
            Algorithm::TestPhoto => "testp"@,
        }
    }

    pub fn token(&self) -> (r: &'static str)
        ensures
            r@ == self.spec_token(),
    {
        match self {
            Algorithm::V3 => "v3",
            Algorithm::Test => "test",
            Algorithm::TestPhoto => "testp",
        }
    }
}

/// Everything the form holds. `text` and `copied_command` are transient: they
/// belong to the running session and are never persisted.
pub struct FormState {
    pub text: String,
    pub suffixes: Vec<(String, bool)>,
    pub algorithm: Algorithm,
    pub aspect_w: u16,
    pub aspect_h: u16,
    pub stylize: u32,
    pub video: bool,
    pub copy_on_change: bool,
    pub use_seed: bool,
    pub seed: u32,
    pub copied_command: String,
}

/// The fields of the form that survive a restart: everything but the free
/// prompt text and the last-copied status line.
pub struct PersistedState {
    pub suffixes: Vec<(String, bool)>,
    pub algorithm: Algorithm,
    pub aspect_w: u16,
    pub aspect_h: u16,
    pub stylize: u32,
    pub video: bool,
    pub copy_on_change: bool,
    pub use_seed: bool,
    pub seed: u32,
}

/// Two suffix lists hold the same labels and the same enabled flags, in the
/// same order.
pub open spec fn suffixes_eq(a: Seq<(String, bool)>, b: Seq<(String, bool)>) -> bool {
    &&& a.len() == b.len()
    &&& forall|i: int|
        0 <= i < a.len() ==> #[trigger] a[i].0@ == b[i].0@ && a[i].1 == b[i].1
}

/// The persisted fields of `a` agree with those of `b`, label by label and
/// flag by flag; the transient fields are not compared.
pub open spec fn persisted_fields_eq(a: FormState, b: FormState) -> bool {
    &&& suffixes_eq(a.suffixes@, b.suffixes@)
    &&& a.algorithm == b.algorithm
    &&& a.aspect_w == b.aspect_w
    &&& a.aspect_h == b.aspect_h
    &&& a.stylize == b.stylize
    &&& a.video == b.video
    &&& a.copy_on_change == b.copy_on_change
    &&& a.use_seed == b.use_seed
    &&& a.seed == b.seed
}

impl FormState {
    /// The hard-coded state the tool starts from when nothing was persisted:
    /// one enabled "realistic" suffix, the default algorithm, a square aspect,
    /// the sentinel stylize strength, no seed, no video, copy-on-change on.
    pub open spec fn is_default(self) -> bool {
        &&& self.text@ == Seq::<char>::empty()
        &&& self.suffixes@.len() == 1
        &&& self.suffixes@[0].0@ == "realistic"@
        &&& self.suffixes@[0].1 == true
        &&& self.algorithm == Algorithm::V3
        &&& self.aspect_w == 1
        &&& self.aspect_h == 1
        &&& self.stylize == DEFAULT_STYLIZE
        &&& self.video == false
        &&& self.copy_on_change == true
        &&& self.use_seed == false
        &&& self.seed == 0
        &&& self.copied_command@ == Seq::<char>::empty()
    }

    pub fn default_state() -> (r: FormState)
        ensures
            r.is_default(),
    {
        let mut suffixes: Vec<(String, bool)> = Vec::new();
        suffixes.push((String::from_str("realistic"), true));
        FormState {
            text: String::new(),
            suffixes,
            algorithm: Algorithm::V3,
            aspect_w: 1,
            aspect_h: 1,
            stylize: DEFAULT_STYLIZE,
            video: false,
            copy_on_change: true,
            use_seed: false,
            seed: 0,
            copied_command: String::new(),
        }
    }

    /// The projection onto the persisted fields, as a spec-level value.
    pub open spec fn spec_persisted(self) -> PersistedState {
        PersistedState {
            suffixes: self.suffixes,
            algorithm: self.algorithm,
            aspect_w: self.aspect_w,
            aspect_h: self.aspect_h,
            stylize: self.stylize,
            video: self.video,
            copy_on_change: self.copy_on_change,
            use_seed: self.use_seed,
            seed: self.seed,
        }
    }

    /// Projects the state onto its persisted fields, dropping the transient
    /// prompt text and status line.
    pub fn to_persisted(self) -> (r: PersistedState)
        ensures
            r == self.spec_persisted(),
    {
        PersistedState {
            suffixes: self.suffixes,
            algorithm: self.algorithm,
            aspect_w: self.aspect_w,
            aspect_h: self.aspect_h,
            stylize: self.stylize,
            video: self.video,
            copy_on_change: self.copy_on_change,
            use_seed: self.use_seed,
            seed: self.seed,
        }
    }
}

impl PersistedState {
    /// `r` is the live form state this persisted record restores to: the
    /// persisted fields as stored, the transient fields empty.
    pub open spec fn restores_to(self, r: FormState) -> bool {
        &&& suffixes_eq(r.suffixes@, self.suffixes@)
        &&& r.algorithm == self.algorithm
        &&& r.aspect_w == self.aspect_w
        &&& r.aspect_h == self.aspect_h
        &&& r.stylize == self.stylize
        &&& r.video == self.video
        &&& r.copy_on_change == self.copy_on_change
        &&& r.use_seed == self.use_seed
        &&& r.seed == self.seed
        &&& r.text@ == Seq::<char>::empty()
        &&& r.copied_command@ == Seq::<char>::empty()
    }

    /// Turns a persisted record back into a live form state with empty
    /// transient fields.
    pub fn restored(self) -> (r: FormState)
        ensures
            self.restores_to(r),
    {
        FormState {
            text: String::new(),
            suffixes: self.suffixes,
            algorithm: self.algorithm,
            aspect_w: self.aspect_w,
            aspect_h: self.aspect_h,
            stylize: self.stylize,
            video: self.video,
            copy_on_change: self.copy_on_change,
            use_seed: self.use_seed,
            seed: self.seed,
            copied_command: String::new(),
        }
    }
}

/// What start-up does with the outcome of reading the persisted file: a
/// record that could be read and decoded is restored, anything else falls
/// back to the hard-coded default. Failure is never surfaced.
pub fn load_or_default(loaded: Option<PersistedState>) -> (r: FormState)
    ensures
        loaded is None ==> r.is_default(),
        loaded is Some ==> loaded->0.restores_to(r),
{
    match loaded {
        Some(p) => p.restored(),
        None => FormState::default_state(),
    }
}

/// Persisting a form state and restoring the record gives back every
/// persisted field unchanged; only the transient fields are reset.
pub proof fn lemma_persist_round_trip(s: FormState, r: FormState)
    requires
        s.spec_persisted().restores_to(r),
    ensures
        persisted_fields_eq(r, s),
        r.text@ == Seq::<char>::empty(),
        r.copied_command@ == Seq::<char>::empty(),
{
}

} // verus!

