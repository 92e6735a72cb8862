//! The shared game state: the player's profile and the record of completed
//! segments.
use rand::rngs::StdRng;
use rand::SeedableRng;
use crate::text::{
    lemma_text_lt_irreflexive, lemma_text_lt_total, lemma_text_lt_transitive,
    lemma_text_sorted_no_duplicates, text_less, text_lt, text_sorted,
};
use vstd::prelude::*;

verus! {

/// Number of completed segments after which the Oracle verdict unlocks.
pub const VERDICT_SEGMENT_THRESHOLD: usize = 3;

/// Default seed used when no explicit seed is provided. Tests pass a fixed
/// seed so runs stay reproducible.
pub const DEFAULT_SEED: u64 = 0x2026_C0DE;

/// `value + delta`, held to the range `0..=100`.
pub open spec fn clamp_delta(value: int, delta: int) -> int {
    let sum = value + delta;
    if sum < 0 {
        0
    } else if sum > 100 {
        100
    } else {
        sum
    }
}

/// An aspect after an adjustment by `delta`.
pub open spec fn adjusted(value: u32, delta: int) -> u32 {
    clamp_delta(value as int, delta) as u32
}

/// The player profile that every segment nudges and the Oracle reads.
#[derive(Debug, Clone, PartialEq, Eq)]
pub struct PlayerAspects {
    pub social_engagement: u32,
    pub esoteric_attunement: u32,
    pub geopolitical_awareness: u32,
    pub locus_of_control: u32,
    pub baseline_anxiety: u32,
    pub shadow_score: u32,
    pub contract_signed: bool,
    pub constellation_name: Option<String>,
    pub keywords: Vec<String>,
}

impl PlayerAspects {
    /// The keywords as character sequences, in the order they were caught.
    pub open spec fn keyword_views(&self) -> Seq<Seq<char>> {
        self.keywords@.map_values(|k: String| k@)
    }

    /// The profile every new game starts from.
    pub open spec fn is_initial(&self) -> bool {
        &&& self.social_engagement == 50
        &&& self.esoteric_attunement == 50
        &&& self.geopolitical_awareness == 50
        &&& self.locus_of_control == 50
        &&& self.baseline_anxiety == 20
        &&& self.shadow_score == 0
        &&& !self.contract_signed
        &&& self.constellation_name is None
        &&& self.keywords@.len() == 0
    }

    /// The four axes and the anxiety all lie in `0..=100`.
    pub open spec fn aspects_in_range(&self) -> bool {
        &&& self.social_engagement <= 100
        &&& self.esoteric_attunement <= 100
        &&& self.geopolitical_awareness <= 100
        &&& self.locus_of_control <= 100
        &&& self.baseline_anxiety <= 100
        &&& self.shadow_score <= 100
    }

    /// No keyword is empty and none occurs twice.
    pub open spec fn keywords_well_formed(&self) -> bool {
        &&& self.keyword_views().no_duplicates()
        &&& forall|i: int|
            0 <= i < self.keyword_views().len() ==> #[trigger] self.keyword_views()[i].len() > 0
    }

    /// `self` and `other` agree on every field but the keywords.
    pub open spec fn same_but_keywords(&self, other: &Self) -> bool {
        &&& self.social_engagement == other.social_engagement
        &&& self.esoteric_attunement == other.esoteric_attunement
        &&& self.geopolitical_awareness == other.geopolitical_awareness
        &&& self.locus_of_control == other.locus_of_control
        &&& self.baseline_anxiety == other.baseline_anxiety
        &&& self.shadow_score == other.shadow_score
        &&& self.contract_signed == other.contract_signed
        &&& self.constellation_name == other.constellation_name
    }
}

impl Default for PlayerAspects {
    fn default() -> (profile: Self)
        ensures
            profile.is_initial(),
    {
        PlayerAspects {
            social_engagement: 50,
            esoteric_attunement: 50,
            geopolitical_awareness: 50,
            locus_of_control: 50,
            baseline_anxiety: 20,
            shadow_score: 0,
            contract_signed: false,
            constellation_name: None,
            keywords: Vec::new(),
        }
    }
}

/// `value + delta`, held to `0..=100`.
fn clamp(value: u32, delta: i32) -> (r: u32)
    ensures
        r == adjusted(value, delta as int),
        r <= 100,
{
    let sum: i64 = value as i64 + delta as i64;
    if sum < 0 {
        0
    } else if sum > 100 {
        100
    } else {
        sum as u32
    }
}

impl PlayerAspects {
    /// Move the social axis by `delta`, held to `0..=100`.
    pub fn adjust_social(&mut self, delta: i32)
        ensures
            *final(self) == (PlayerAspects {
                social_engagement: adjusted(old(self).social_engagement, delta as int),
                ..*old(self)
            }),
    {
        self.social_engagement = clamp(self.social_engagement, delta);
    }

    /// Move the esoteric axis by `delta`, held to `0..=100`.
    pub fn adjust_esoteric(&mut self, delta: i32)
        ensures
            *final(self) == (PlayerAspects {
                esoteric_attunement: adjusted(old(self).esoteric_attunement, delta as int),
                ..*old(self)
            }),
    {
        self.esoteric_attunement = clamp(self.esoteric_attunement, delta);
    }

    /// Move the geopolitical axis by `delta`, held to `0..=100`.
    pub fn adjust_geopolitical(&mut self, delta: i32)
        ensures
            *final(self) == (PlayerAspects {
                geopolitical_awareness: adjusted(old(self).geopolitical_awareness, delta as int),
                ..*old(self)
            }),
    {
        self.geopolitical_awareness = clamp(self.geopolitical_awareness, delta);
    }

    /// Move the locus-of-control axis by `delta`, held to `0..=100`.
    pub fn adjust_locus(&mut self, delta: i32)
        ensures
            *final(self) == (PlayerAspects {
                locus_of_control: adjusted(old(self).locus_of_control, delta as int),
                ..*old(self)
            }),
    {
        self.locus_of_control = clamp(self.locus_of_control, delta);
    }

    /// Move the baseline anxiety by `delta`, held to `0..=100`.
    pub fn adjust_anxiety(&mut self, delta: i32)
        ensures
            *final(self) == (PlayerAspects {
                baseline_anxiety: adjusted(old(self).baseline_anxiety, delta as int),
                ..*old(self)
            }),
    {
        self.baseline_anxiety = clamp(self.baseline_anxiety, delta);
    }

    /// Move the shadow score by `delta`, held to `0..=100`.
    pub fn adjust_shadow(&mut self, delta: i32)
        ensures
            *final(self) == (PlayerAspects {
                shadow_score: adjusted(old(self).shadow_score, delta as int),
                ..*old(self)
            }),
    {
        self.shadow_score = clamp(self.shadow_score, delta);
    }

    /// Record a caught keyword: an empty keyword, or one already held, is
    /// ignored.
    pub fn add_keyword(&mut self, keyword: &str)
        ensures
            final(self).same_but_keywords(old(self)),
            final(self).keyword_views() == with_keyword(old(self).keyword_views(), keyword@),
    {
        let owned = keyword.to_owned();
        if keyword.is_empty() {
            return ;
        }
        let n = self.keywords.len();
        let mut i: usize = 0;
        while i < n
            invariant
                *self == *old(self),
                owned@ == keyword@,
                n == self.keywords.len(),
                i <= n,
                forall|j: int| 0 <= j < i ==> self.keyword_views()[j] != keyword@,
            decreases n - i,
        {
            if self.keywords[i] == owned {
                proof {
                    assert(self.keyword_views()[i as int] == keyword@);
                    assert(self.keyword_views().contains(keyword@));
                    assert(old(self).keyword_views().contains(keyword@));
                }
                return ;
            }
            i = i + 1;
        }
        proof {
            assert forall|j: int| 0 <= j < self.keyword_views().len() implies self.keyword_views()[j]
                != keyword@ by {}
        }
        self.keywords.push(owned);
        proof {
            assert(self.keyword_views() =~= old(self).keyword_views().push(keyword@));
        }
    }
}

/// The keywords after catching `keyword`: it is added at the end unless it
/// is empty or already held.
pub open spec fn with_keyword(keywords: Seq<Seq<char>>, keyword: Seq<char>) -> Seq<Seq<char>> {
    if keyword.len() > 0 && !keywords.contains(keyword) {
        keywords.push(keyword)
    } else {
        keywords
    }
}

/// Adding a keyword keeps the keywords free of empty entries and repeats.
pub proof fn lemma_add_keyword_keeps_keywords_well_formed(
    before: PlayerAspects,
    after: PlayerAspects,
    keyword: Seq<char>,
)
    requires
        before.keywords_well_formed(),
        after.keyword_views() == with_keyword(before.keyword_views(), keyword),
    ensures
        after.keywords_well_formed(),
{
    if keyword.len() > 0 && !before.keyword_views().contains(keyword) {
        let s = before.keyword_views();
        assert forall|i: int, j: int|
            0 <= i < after.keyword_views().len() && 0 <= j < after.keyword_views().len() && i
                != j implies after.keyword_views()[i] != after.keyword_views()[j] by {
            if i == s.len() {
                assert(s[j] == after.keyword_views()[j]);
            } else if j == s.len() {
                assert(s[i] == after.keyword_views()[i]);
            }
        }
    }
}

/// The ids of the segments completed so far, each held once, in the order
/// of `str` (as a `BTreeSet<String>` holds them).
#[derive(Debug)]
pub struct Progress {
    ids: Vec<String>,
}

impl Progress {
    /// The ids, in increasing order.
    pub closed spec fn order(&self) -> Seq<Seq<char>> {
        self.ids@.map_values(|s: String| s@)
    }

    /// The set of completed ids.
    pub open spec fn ids(&self) -> Set<Seq<char>> {
        self.order().to_set()
    }

    #[verifier::type_invariant]
    spec fn increasing(&self) -> bool {
        text_sorted(self.order())
    }

    /// A record with nothing completed.
    pub fn new() -> (progress: Self)
        ensures
            progress.order().len() == 0,
            progress.ids() == Set::<Seq<char>>::empty(),
    {
        let progress = Progress { ids: Vec::new() };
        proof {
            assert(progress.order() =~= Seq::<Seq<char>>::empty());
            assert(progress.ids() =~= Set::<Seq<char>>::empty());
        }
        progress
    }

    /// The number of completed segments.
    pub fn len(&self) -> (count: usize)
        ensures
            count == self.ids().len(),
            count == self.order().len(),
    {
        proof {
            use_type_invariant(self);
            lemma_text_sorted_no_duplicates(self.order());
            self.order().unique_seq_to_set();
        }
        self.ids.len()
    }

    /// Borrow the ids, in increasing order.
    pub fn as_vec(&self) -> (ids: &Vec<String>)
        ensures
            ids@.map_values(|s: String| s@) == self.order(),
            text_sorted(ids@.map_values(|s: String| s@)),
            ids@.map_values(|s: String| s@).no_duplicates(),
    {
        proof {
            use_type_invariant(self);
            lemma_text_sorted_no_duplicates(self.order());
        }
        &self.ids
    }

    /// Whether `id` was completed.
    pub fn contains(&self, id: &str) -> (found: bool)
        ensures
            found == self.ids().contains(id@),
    {
        let owned = id.to_owned();
        let n = self.ids.len();
        let mut i: usize = 0;
        while i < n
            invariant
                owned@ == id@,
                n == self.ids.len(),
                i <= n,
                forall|j: int| 0 <= j < i ==> self.order()[j] != id@,
            decreases n - i,
        {
            if self.ids[i] == owned {
                proof {
                    assert(self.order()[i as int] == id@);
                    assert(self.order().contains(id@));
                    assert(self.ids().contains(id@));
                }
                return true;
            }
            i = i + 1;
        }
        proof {
            if self.order().contains(id@) {
                let k = self.order().index_of(id@);
                assert(self.order()[k] == id@);
            }
        }
        false
    }

    /// Record `id` as completed, in its place in the order; an id already
    /// held is not added again.
    pub fn insert(&mut self, id: &str)
        ensures
            final(self).ids() == old(self).ids().insert(id@),
            old(self).ids().contains(id@) ==> *final(self) == *old(self),
            text_sorted(final(self).order()),
    {
        proof {
            use_type_invariant(&*self);
        }
        if self.contains(id) {
            proof {
                assert(old(self).ids().insert(id@) =~= old(self).ids());
            }
            return ;
        }
        let ghost before = self.order();
        let n = self.ids.len();
        let mut k: usize = 0;
        while k < n && text_less(self.ids[k].as_str(), id)
            invariant
                n == self.ids.len(),
                before == self.order(),
                k <= n,
                forall|j: int| 0 <= j < k ==> text_lt(#[trigger] before[j], id@),
            decreases n - k,
        {
            k = k + 1;
        }
        let mut ids: Vec<String> = Vec::new();
        std::mem::swap(&mut ids, &mut self.ids);
        ids.insert(k, id.to_owned());
        let ghost after = ids@.map_values(|s: String| s@);
        proof {
            assert(after =~= before.insert(k as int, id@));
            assert(!before.contains(id@));
            if k < n {
                assert(before[k as int] != id@) by {
                    assert(before.contains(before[k as int]));
                }
                assert(!text_lt(before[k as int], id@));
                lemma_text_lt_total(before[k as int], id@);
            }
            assert forall|i: int, j: int| 0 <= i < j < after.len() implies text_lt(
                #[trigger] after[i],
                #[trigger] after[j],
            ) by {
                if j < k {
                    assert(after[i] == before[i] && after[j] == before[j]);
                } else if j == k {
                    assert(after[i] == before[i]);
                } else if i == k {
                    assert(after[j] == before[j - 1]);
                    if j - 1 > k {
                        lemma_text_lt_transitive(id@, before[k as int], before[j - 1]);
                    }
                } else if i < k {
                    assert(after[i] == before[i] && after[j] == before[j - 1]);
                } else {
                    assert(after[i] == before[i - 1] && after[j] == before[j - 1]);
                }
            }
            assert(after.to_set() =~= before.to_set().insert(id@)) by {
                assert forall|x: Seq<char>| after.to_set().contains(x) <==> before.to_set().insert(
                    id@,
                ).contains(x) by {
                    if after.contains(x) {
                        let m = after.index_of(x);
                        if m < k {
                            assert(before[m] == x);
                        } else if m > k {
                            assert(before[m - 1] == x);
                        }
                    }
                    if before.contains(x) {
                        let m = before.index_of(x);
                        if m < k {
                            assert(after[m] == x);
                        } else {
                            assert(after[m + 1] == x);
                        }
                    }
                    if x == id@ {
                        assert(after[k as int] == x);
                    }
                }
            }
        }
        self.ids = ids;
    }
}

impl Clone for Progress {
    fn clone(&self) -> (copy: Self)
        ensures
            copy.order() == self.order(),
    {
        proof {
            use_type_invariant(self);
            lemma_text_sorted_no_duplicates(self.order());
        }
        let n = self.ids.len();
        let mut ids: Vec<String> = Vec::new();
        let mut i: usize = 0;
        while i < n
            invariant
                n == self.ids.len(),
                i <= n,
                ids@.map_values(|s: String| s@) =~= self.order().subrange(0, i as int),
            decreases n - i,
        {
            let copy = self.ids[i].clone();
            let ghost before = ids@.map_values(|s: String| s@);
            ids.push(copy);
            proof {
                assert(ids@.map_values(|s: String| s@) =~= before.push(copy@));
                assert(self.order().subrange(0, i + 1) =~= self.order().subrange(0, i as int).push(
                    self.order()[i as int],
                ));
            }
            i = i + 1;
        }
        proof {
            assert(self.order().subrange(0, n as int) =~= self.order());
        }
        Progress { ids }
    }
}

/// The shared state of one game: the profile, the segments completed so far
/// and the seed of the game's randomness.
#[derive(Debug, Clone)]
pub struct GameState {
    pub profile: PlayerAspects,
    pub completed: Progress,
    pub seed: u64,
}

/// `rand::rngs::StdRng`, carried through as an opaque value.
#[verifier::external_type_specification]
#[verifier::external_body]
pub struct ExStdRng(rand::rngs::StdRng);

/// The RNG that `StdRng::seed_from_u64` builds from a seed.
pub uninterp spec fn std_rng_from_seed(seed: u64) -> StdRng;

/// Calls `rand::SeedableRng::seed_from_u64` for `StdRng`, which expands the
/// seed deterministically (PCG32 into the ChaCha12 key); the contract says
/// only that the result is a function of the seed.
#[verifier::external_body]
fn seeded_std_rng(seed: u64) -> (rng: StdRng)
    ensures
        rng == std_rng_from_seed(seed),
{
    StdRng::seed_from_u64(seed)
}

impl GameState {
    /// The set of ids of the completed segments.
    pub open spec fn completed_ids(&self) -> Set<Seq<char>> {
        self.completed.ids()
    }

    /// A fresh game with the given seed.
    pub open spec fn is_fresh(&self, seed: u64) -> bool {
        &&& self.profile.is_initial()
        &&& self.completed.order().len() == 0
        &&& self.seed == seed
    }

    /// `self` and `other` hold the same progress and seed.
    pub open spec fn same_progress(&self, other: &Self) -> bool {
        &&& self.completed == other.completed
        &&& self.seed == other.seed
    }

    /// Create a `GameState` with a fixed seed for reproducible runs.
    pub fn with_seed(seed: u64) -> (state: Self)
        ensures
            state.is_fresh(seed),
            state.completed_ids() == Set::<Seq<char>>::empty(),
    {
        GameState { profile: PlayerAspects::default(), completed: Progress::new(), seed }
    }

    /// Build a deterministic RNG from the stored seed.
    ///
    /// Segments and the oracle use this for any randomness so that a fixed
    /// seed yields identical behaviour in tests and replays.
    pub fn rng(&self) -> (rng: StdRng)
        ensures
            rng == std_rng_from_seed(self.seed),
    {
        seeded_std_rng(self.seed)
    }

    /// The number of completed segments.
    pub fn completed_segments(&self) -> (count: usize)
        ensures
            count == self.completed_ids().len(),
    {
        self.completed.len()
    }

    /// Borrow the ids of the completed segments (for menu rendering), each
    /// once and in increasing order.
    pub fn completed_set(&self) -> (ids: &Vec<String>)
        ensures
            ids@.map_values(|s: String| s@).to_set() == self.completed_ids(),
            text_sorted(ids@.map_values(|s: String| s@)),
            ids@.map_values(|s: String| s@).no_duplicates(),
    {
        self.completed.as_vec()
    }

    /// Whether the segment `id` was completed.
    pub fn is_segment_completed(&self, id: &str) -> (done: bool)
        ensures
            done == self.completed_ids().contains(id@),
    {
        self.completed.contains(id)
    }

    /// Record the segment `id` as completed; the profile is untouched.
    pub fn complete_segment(&mut self, id: &str)
        ensures
            final(self).profile == old(self).profile,
            final(self).seed == old(self).seed,
            final(self).completed_ids() == old(self).completed_ids().insert(id@),
            old(self).completed_ids().contains(id@) ==> final(self).completed
                == old(self).completed,
    {
        self.completed.insert(id);
    }

    /// Whether enough segments are complete for the Oracle verdict.
    pub fn can_show_verdict(&self) -> (unlocked: bool)
        ensures
            unlocked == (self.completed_ids().len() >= VERDICT_SEGMENT_THRESHOLD),
    {
        self.completed_segments() >= VERDICT_SEGMENT_THRESHOLD
    }
}

impl Default for GameState {
    fn default() -> (state: Self)
        ensures
            state.is_fresh(DEFAULT_SEED),
            state.completed_ids() == Set::<Seq<char>>::empty(),
    {
        GameState::with_seed(DEFAULT_SEED)
    }
}

/// The profile after the elevator decision: a high floor (70 and up) raises
/// the social and geopolitical axes, a lower one the esoteric axis; panic
/// raises anxiety and locus, composure lowers anxiety and adds to the
/// esoteric axis.
pub open spec fn elevator_decision_profile(p: PlayerAspects, floor: u32, panic: bool) -> PlayerAspects {
    let p1 = if floor >= 70 {
        PlayerAspects {
            social_engagement: adjusted(p.social_engagement, 8),
            geopolitical_awareness: adjusted(p.geopolitical_awareness, 8),
            ..p
        }
    } else {
        PlayerAspects { esoteric_attunement: adjusted(p.esoteric_attunement, 8), ..p }
    };
    if panic {
        PlayerAspects {
            baseline_anxiety: adjusted(p1.baseline_anxiety, 10),
            locus_of_control: adjusted(p1.locus_of_control, 5),
            ..p1
        }
    } else {
        PlayerAspects {
            baseline_anxiety: adjusted(p1.baseline_anxiety, -5),
            esoteric_attunement: adjusted(p1.esoteric_attunement, 3),
            ..p1
        }
    }
}

/// The feedback line of the elevator decision.
pub open spec fn elevator_decision_feedback(panic: bool) -> Seq<char> {
    if panic {
        "The elevator stops. Your panic has been filed under: elevator."@
    } else {
        "The elevator arrives. The building has noticed your composure."@
    }
}

/// The profile after the radio decision.
pub open spec fn radio_decision_profile(p: PlayerAspects, listen: bool) -> PlayerAspects {
    if listen {
        PlayerAspects {
            geopolitical_awareness: adjusted(p.geopolitical_awareness, 6),
            baseline_anxiety: adjusted(p.baseline_anxiety, 4),
            ..p
        }
    } else {
        PlayerAspects {
            locus_of_control: adjusted(p.locus_of_control, 6),
            baseline_anxiety: adjusted(p.baseline_anxiety, -3),
            ..p
        }
    }
}

/// The feedback line of the radio decision.
pub open spec fn radio_decision_feedback(listen: bool) -> Seq<char> {
    if listen {
        "The radio explains everything, except why you are still listening."@
    } else {
        "You turn off the radio. The silence has its own editorial position."@
    }
}

/// The profile after the mirror decision.
pub open spec fn mirror_decision_profile(p: PlayerAspects, look: bool) -> PlayerAspects {
    if look {
        PlayerAspects {
            esoteric_attunement: adjusted(p.esoteric_attunement, 6),
            baseline_anxiety: adjusted(p.baseline_anxiety, 5),
            ..p
        }
    } else {
        PlayerAspects {
            locus_of_control: adjusted(p.locus_of_control, 5),
            baseline_anxiety: adjusted(p.baseline_anxiety, -4),
            ..p
        }
    }
}

/// The feedback line of the mirror decision.
pub open spec fn mirror_decision_feedback(look: bool) -> Seq<char> {
    if look {
        "The mirror confirms your presence and declines to elaborate."@
    } else {
        "You avoid the mirror. Nothing objectively important has changed."@
    }
}

impl GameState {
    /// Apply the elevator decision and return its feedback line.
    pub fn apply_elevator_decision(&mut self, floor: u32, panic: bool) -> (feedback: String)
        ensures
            final(self).profile == elevator_decision_profile(old(self).profile, floor, panic),
            final(self).same_progress(old(self)),
            feedback@ == elevator_decision_feedback(panic),
    {
        if floor >= 70 {
            self.profile.adjust_social(8);
            self.profile.adjust_geopolitical(8);
        } else {
            self.profile.adjust_esoteric(8);
        }
        if panic {
            self.profile.adjust_anxiety(10);
            self.profile.adjust_locus(5);
            "The elevator stops. Your panic has been filed under: elevator.".to_owned()
        } else {
            self.profile.adjust_anxiety(-5);
            self.profile.adjust_esoteric(3);
            "The elevator arrives. The building has noticed your composure.".to_owned()
        }
    }

    /// Apply the radio decision and return its feedback line.
    pub fn apply_radio_decision(&mut self, listen: bool) -> (feedback: String)
        ensures
            final(self).profile == radio_decision_profile(old(self).profile, listen),
            final(self).same_progress(old(self)),
            feedback@ == radio_decision_feedback(listen),
    {
        if listen {
            self.profile.adjust_geopolitical(6);
            self.profile.adjust_anxiety(4);
            "The radio explains everything, except why you are still listening.".to_owned()
        } else {
            self.profile.adjust_locus(6);
            self.profile.adjust_anxiety(-3);
            "You turn off the radio. The silence has its own editorial position.".to_owned()
        }
    }

    /// Apply the mirror decision and return its feedback line.
    pub fn apply_mirror_decision(&mut self, look: bool) -> (feedback: String)
        ensures
            final(self).profile == mirror_decision_profile(old(self).profile, look),
            final(self).same_progress(old(self)),
            feedback@ == mirror_decision_feedback(look),
    {
        if look {
            self.profile.adjust_esoteric(6);
            self.profile.adjust_anxiety(5);
            "The mirror confirms your presence and declines to elaborate.".to_owned()
        } else {
            self.profile.adjust_locus(5);
            self.profile.adjust_anxiety(-4);
            "You avoid the mirror. Nothing objectively important has changed.".to_owned()
        }
    }
}

/// Event category that can occur on an elevator floor.
#[derive(Debug, Clone, Copy, PartialEq, Eq, Structural)]
pub enum ElevatorEventCategory {
    Mystical,
    Social,
    Global,
}

/// The category of the event on a floor: 70 and up global, 40 to 69 social,
/// lower floors mystical.
pub open spec fn floor_category(floor: u32) -> ElevatorEventCategory {
    if floor >= 70 {
        ElevatorEventCategory::Global
    } else if floor >= 40 {
        ElevatorEventCategory::Social
    } else {
        ElevatorEventCategory::Mystical
    }
}

/// The name of an event category.
pub open spec fn category_label(category: ElevatorEventCategory) -> Seq<char> {
    match category {
        ElevatorEventCategory::Mystical => "mystical"@,
        ElevatorEventCategory::Social => "social"@,
        ElevatorEventCategory::Global => "global"@,
    }
}

impl ElevatorEventCategory {
    /// Pick a deterministic event category from a chosen floor (1..=100).
    ///
    /// High floors read as geopolitical, mid floors as social, low floors as
    /// esoteric. The mapping is fixed so tests stay reproducible.
    pub fn from_floor(floor: u32) -> (category: Self)
        ensures
            category == floor_category(floor),
    {
        if floor >= 70 {
            ElevatorEventCategory::Global
        } else if floor >= 40 {
            ElevatorEventCategory::Social
        } else {
            ElevatorEventCategory::Mystical
        }
    }

    /// The name of the category.
    pub fn label(&self) -> (label: &'static str)
        ensures
            label@ == category_label(*self),
    {
        match self {
            ElevatorEventCategory::Mystical => "mystical",
            ElevatorEventCategory::Social => "social",
            ElevatorEventCategory::Global => "global",
        }
    }
}

/// The profile after the player engages with (or ignores) a floor's event:
/// engaging raises the axis that matches the category.
pub open spec fn elevator_event_profile(
    p: PlayerAspects,
    category: ElevatorEventCategory,
    engage: bool,
) -> PlayerAspects {
    if !engage {
        p
    } else {
        match category {
            ElevatorEventCategory::Mystical => PlayerAspects {
                esoteric_attunement: adjusted(p.esoteric_attunement, 6),
                ..p
            },
            ElevatorEventCategory::Social => PlayerAspects {
                social_engagement: adjusted(p.social_engagement, 6),
                ..p
            },
            ElevatorEventCategory::Global => PlayerAspects {
                geopolitical_awareness: adjusted(p.geopolitical_awareness, 6),
                ..p
            },
        }
    }
}

/// The feedback line of a floor's event.
pub open spec fn elevator_event_feedback(category: ElevatorEventCategory, engage: bool) -> Seq<
    char,
> {
    if !engage {
        "You ignore the floor's event. The doors close on an unremarkable moment."@
    } else {
        match category {
            ElevatorEventCategory::Mystical =>
                "A mystical event unfolds: the elevator hums a tune older than the building."@,
            ElevatorEventCategory::Social =>
                "A social event unfolds: a neighbour nods, and you are briefly legible to society."@,
            ElevatorEventCategory::Global =>
                "A global event unfolds: the rooftop broadcast declares a crisis that will not involve you."@,
        }
    }
}

impl GameState {
    /// Apply a floor's event (when the player engages) and return its
    /// feedback line.
    pub fn apply_elevator_event(&mut self, category: ElevatorEventCategory, engage: bool) -> (feedback: String)
        ensures
            final(self).profile == elevator_event_profile(old(self).profile, category, engage),
            final(self).same_progress(old(self)),
            feedback@ == elevator_event_feedback(category, engage),
    {
        if !engage {
            return "You ignore the floor's event. The doors close on an unremarkable moment.".to_owned();
        }
        match category {
            ElevatorEventCategory::Mystical => {
                self.profile.adjust_esoteric(6);
                "A mystical event unfolds: the elevator hums a tune older than the building.".to_owned()
            },
            ElevatorEventCategory::Social => {
                self.profile.adjust_social(6);
                "A social event unfolds: a neighbour nods, and you are briefly legible to society.".to_owned()
            },
            ElevatorEventCategory::Global => {
                self.profile.adjust_geopolitical(6);
                "A global event unfolds: the rooftop broadcast declares a crisis that will not involve you.".to_owned()
            },
        }
    }
}

/// Every decision keeps a profile's aspects within `0..=100`.
pub proof fn lemma_decisions_keep_aspects_in_range(
    p: PlayerAspects,
    floor: u32,
    panic: bool,
    category: ElevatorEventCategory,
    engage: bool,
    answer: bool,
)
    requires
        p.aspects_in_range(),
    ensures
        elevator_decision_profile(p, floor, panic).aspects_in_range(),
        elevator_event_profile(p, category, engage).aspects_in_range(),
        radio_decision_profile(p, answer).aspects_in_range(),
        mirror_decision_profile(p, answer).aspects_in_range(),
{
}

/// The elevator decision, field by field: a floor of 70 and up raises the
/// social and geopolitical axes by 8, a lower floor the esoteric axis by 8,
/// whatever the panic answer; panicking then raises anxiety by 10 and locus
/// by 5, keeping composure lowers anxiety by 5 and raises the esoteric axis
/// by 3. Nothing else changes.
pub proof fn lemma_elevator_decision_effects(p: PlayerAspects, floor: u32, panic: bool)
    ensures
        ({
            let q = elevator_decision_profile(p, floor, panic);
            let e = if floor >= 70 {
                p.esoteric_attunement
            } else {
                adjusted(p.esoteric_attunement, 8)
            };
            &&& q.social_engagement == if floor >= 70 {
                adjusted(p.social_engagement, 8)
            } else {
                p.social_engagement
            }
            &&& q.geopolitical_awareness == if floor >= 70 {
                adjusted(p.geopolitical_awareness, 8)
            } else {
                p.geopolitical_awareness
            }
            &&& q.esoteric_attunement == if panic {
                e
            } else {
                adjusted(e, 3)
            }
            &&& q.baseline_anxiety == adjusted(p.baseline_anxiety, if panic { 10 } else { -5 })
            &&& q.locus_of_control == if panic {
                adjusted(p.locus_of_control, 5)
            } else {
                p.locus_of_control
            }
            &&& q.shadow_score == p.shadow_score
            &&& q.contract_signed == p.contract_signed
            &&& q.constellation_name == p.constellation_name
            &&& q.keywords == p.keywords
        }),
        elevator_decision_profile(p, floor, true).social_engagement == elevator_decision_profile(
            p,
            floor,
            false,
        ).social_engagement,
        elevator_decision_profile(p, floor, true).geopolitical_awareness
            == elevator_decision_profile(p, floor, false).geopolitical_awareness,
{
}

/// A floor's event, field by field: engaging raises the axis of the floor's
/// category by 6 (esoteric for mystical, social for social, geopolitical for
/// global); ignoring it changes nothing.
pub proof fn lemma_elevator_event_effects(p: PlayerAspects, floor: u32, engage: bool)
    ensures
        ({
            let q = elevator_event_profile(p, floor_category(floor), engage);
            let raise = |v: u32, hit: bool| if engage && hit { adjusted(v, 6) } else { v };
            &&& q.esoteric_attunement == raise(p.esoteric_attunement, floor < 40)
            &&& q.social_engagement == raise(p.social_engagement, 40 <= floor < 70)
            &&& q.geopolitical_awareness == raise(p.geopolitical_awareness, floor >= 70)
            &&& q.locus_of_control == p.locus_of_control
            &&& q.baseline_anxiety == p.baseline_anxiety
            &&& q.shadow_score == p.shadow_score
            &&& q.contract_signed == p.contract_signed
            &&& q.constellation_name == p.constellation_name
            &&& q.keywords == p.keywords
        }),
{
}

/// The radio decision, field by field: listening raises the geopolitical
/// axis by 6 and anxiety by 4; turning it off raises locus by 6 and lowers
/// anxiety by 3. Nothing else changes.
pub proof fn lemma_radio_decision_effects(p: PlayerAspects, listen: bool)
    ensures
        ({
            let q = radio_decision_profile(p, listen);
            &&& q.geopolitical_awareness == if listen {
                adjusted(p.geopolitical_awareness, 6)
            } else {
                p.geopolitical_awareness
            }
            &&& q.locus_of_control == if listen {
                p.locus_of_control
            } else {
                adjusted(p.locus_of_control, 6)
            }
            &&& q.baseline_anxiety == adjusted(p.baseline_anxiety, if listen { 4 } else { -3 })
            &&& q.social_engagement == p.social_engagement
            &&& q.esoteric_attunement == p.esoteric_attunement
            &&& q.shadow_score == p.shadow_score
            &&& q.contract_signed == p.contract_signed
            &&& q.constellation_name == p.constellation_name
            &&& q.keywords == p.keywords
        }),
{
}

/// The mirror decision, field by field: looking raises the esoteric axis by
/// 6 and anxiety by 5; avoiding it raises locus by 5 and lowers anxiety by 4.
/// Nothing else changes.
pub proof fn lemma_mirror_decision_effects(p: PlayerAspects, look: bool)
    ensures
        ({
            let q = mirror_decision_profile(p, look);
            &&& q.esoteric_attunement == if look {
                adjusted(p.esoteric_attunement, 6)
            } else {
                p.esoteric_attunement
            }
            &&& q.locus_of_control == if look {
                p.locus_of_control
            } else {
                adjusted(p.locus_of_control, 5)
            }
            &&& q.baseline_anxiety == adjusted(p.baseline_anxiety, if look { 5 } else { -4 })
            &&& q.social_engagement == p.social_engagement
            &&& q.geopolitical_awareness == p.geopolitical_awareness
            &&& q.shadow_score == p.shadow_score
            &&& q.contract_signed == p.contract_signed
            &&& q.constellation_name == p.constellation_name
            &&& q.keywords == p.keywords
        }),
{
}

/// An adjustment moves a value in `0..=100` by `delta` and holds the result
/// to `0..=100`.
pub proof fn lemma_adjusted_clamps(value: u32, delta: int)
    requires
        value <= 100,
    ensures
        0 <= value + delta <= 100 ==> adjusted(value, delta) == value + delta,
        value + delta < 0 ==> adjusted(value, delta) == 0,
        value + delta > 100 ==> adjusted(value, delta) == 100,
{
}

/// Catching the same keyword twice has the effect of catching it once.
pub proof fn lemma_with_keyword_idempotent(keywords: Seq<Seq<char>>, keyword: Seq<char>)
    ensures
        with_keyword(with_keyword(keywords, keyword), keyword) == with_keyword(keywords, keyword),
{
    if keyword.len() > 0 && !keywords.contains(keyword) {
        let once = keywords.push(keyword);
        assert(once[keywords.len() as int] == keyword);
        assert(once.contains(keyword));
    }
}

/// Completing the elevator, the radio and the mirror unlocks the verdict.
pub proof fn lemma_three_segments_unlock_verdict(state: GameState)
    requires
        state.completed_ids().contains("elevator"@),
        state.completed_ids().contains("radio"@),
        state.completed_ids().contains("mirror"@),
    ensures
        state.completed_ids().len() >= VERDICT_SEGMENT_THRESHOLD,
{
    reveal_strlit("elevator");
    reveal_strlit("radio");
    reveal_strlit("mirror");
    assert("elevator"@.len() != "radio"@.len());
    assert("elevator"@.len() != "mirror"@.len());
    assert("radio"@ != "mirror"@) by {
        assert("radio"@[0] != "mirror"@[0]);
    }
    let three = Set::<Seq<char>>::empty().insert("elevator"@).insert("radio"@).insert("mirror"@);
    assert(three.len() == 3);
    assert(three.subset_of(state.completed_ids()));
    vstd::seq_lib::seq_to_set_is_finite(state.completed.order());
    vstd::set_lib::lemma_len_subset(three, state.completed_ids());
}

} // verus!
