//! The Oracle: a deterministic verdict on the player's profile.
use crate::state::PlayerAspects;
use crate::text::{
    decimal, lacks, lemma_decimal_lacks, lemma_lacks_concat, lemma_replaced_keeps_plain_prefix,
    occurs, push_decimal, replace_all, replaced,
};
use vstd::prelude::*;
use vstd::string::*;

verus! {

/// Classification of a profile used to select a verdict template.
#[derive(Debug, Clone, Copy, PartialEq, Eq, Structural)]
pub struct Classification {
    pub axis: Axis,
    pub anxiety_high: bool,
    pub contract_signed: bool,
    pub has_constellation: bool,
    pub has_keywords: bool,
}

/// One of the four axes of a profile.
#[derive(Debug, Clone, Copy, PartialEq, Eq, Structural)]
pub enum Axis {
    Social,
    Esoteric,
    Geopolitical,
    Locus,
}

/// The name of an axis.
pub open spec fn axis_name(axis: Axis) -> Seq<char> {
    match axis {
        Axis::Social => "social"@,
        Axis::Esoteric => "esoteric"@,
        Axis::Geopolitical => "geopolitical"@,
        Axis::Locus => "locus"@,
    }
}

/// What a player dominated by an axis worries about.
pub open spec fn axis_concern(axis: Axis) -> Seq<char> {
    match axis {
        Axis::Social => "other people's opinions"@,
        Axis::Esoteric => "the collapse of ordinary reality"@,
        Axis::Geopolitical => "geopolitical consequences"@,
        Axis::Locus => "the illusion of control"@,
    }
}

impl Axis {
    /// The name of the axis.
    pub fn name(self) -> (name: &'static str)
        ensures
            name@ == axis_name(self),
    {
        match self {
            Axis::Social => "social",
            Axis::Esoteric => "esoteric",
            Axis::Geopolitical => "geopolitical",
            Axis::Locus => "locus",
        }
    }

    /// What a player dominated by the axis worries about.
    pub fn concern(self) -> (concern: &'static str)
        ensures
            concern@ == axis_concern(self),
    {
        match self {
            Axis::Social => "other people's opinions",
            Axis::Esoteric => "the collapse of ordinary reality",
            Axis::Geopolitical => "geopolitical consequences",
            Axis::Locus => "the illusion of control",
        }
    }
}

/// The value of a profile on an axis.
pub open spec fn axis_value(p: PlayerAspects, a: Axis) -> u32 {
    match a {
        Axis::Social => p.social_engagement,
        Axis::Esoteric => p.esoteric_attunement,
        Axis::Geopolitical => p.geopolitical_awareness,
        Axis::Locus => p.locus_of_control,
    }
}

/// The place of an axis in the tie order: social, esoteric, geopolitical,
/// locus.
pub open spec fn axis_rank(a: Axis) -> int {
    match a {
        Axis::Social => 0,
        Axis::Esoteric => 1,
        Axis::Geopolitical => 2,
        Axis::Locus => 3,
    }
}

/// The dominant axis of a profile and its value: the largest of the four,
/// ties resolved in the order social, esoteric, geopolitical, locus.
pub open spec fn dominant_of(p: PlayerAspects) -> (Axis, u32) {
    let s = p.social_engagement;
    let e = p.esoteric_attunement;
    let g = p.geopolitical_awareness;
    let l = p.locus_of_control;
    if s >= e && s >= g && s >= l {
        (Axis::Social, s)
    } else if e >= s && e >= g && e >= l {
        (Axis::Esoteric, e)
    } else if g >= s && g >= e && g >= l {
        (Axis::Geopolitical, g)
    } else {
        (Axis::Locus, l)
    }
}

/// Pick the dominant axis. Ties resolve to the order
/// social > esoteric > geopolitical > locus (deterministic).
pub fn dominant_axis(profile: &PlayerAspects) -> (dominant: (Axis, u32))
    ensures
        dominant == dominant_of(*profile),
        dominant.1 == axis_value(*profile, dominant.0),
        forall|b: Axis| dominant.1 >= #[trigger] axis_value(*profile, b),
        forall|b: Axis| axis_rank(b) < axis_rank(dominant.0) ==> #[trigger] axis_value(*profile, b) < dominant.1,
        dominant.1 >= profile.social_engagement,
        dominant.1 >= profile.esoteric_attunement,
        dominant.1 >= profile.geopolitical_awareness,
        dominant.1 >= profile.locus_of_control,
{
    let s = profile.social_engagement;
    let e = profile.esoteric_attunement;
    let g = profile.geopolitical_awareness;
    let l = profile.locus_of_control;
    if s >= e && s >= g && s >= l {
        (Axis::Social, s)
    } else if e >= s && e >= g && e >= l {
        (Axis::Esoteric, e)
    } else if g >= s && g >= e && g >= l {
        (Axis::Geopolitical, g)
    } else {
        (Axis::Locus, l)
    }
}

/// The dominant axis is the first, in the order social, esoteric,
/// geopolitical, locus, of the axes on which the profile takes its largest
/// value, and the value given is the profile's own value on that axis.
pub proof fn lemma_dominant_is_first_maximum(p: PlayerAspects)
    ensures
        dominant_of(p).1 == axis_value(p, dominant_of(p).0),
        forall|b: Axis| dominant_of(p).1 >= #[trigger] axis_value(p, b),
        forall|b: Axis|
            axis_rank(b) < axis_rank(dominant_of(p).0) ==> #[trigger] axis_value(p, b) < dominant_of(
                p,
            ).1,
{
}

/// The classification of a profile: its dominant axis, whether its anxiety
/// is above 70, and which markers it carries.
pub open spec fn classification_of(p: PlayerAspects) -> Classification {
    Classification {
        axis: dominant_of(p).0,
        anxiety_high: p.baseline_anxiety > 70,
        contract_signed: p.contract_signed,
        has_constellation: p.constellation_name is Some,
        has_keywords: p.keywords@.len() > 0,
    }
}

/// Classify a profile for verdict selection.
pub fn classify(profile: &PlayerAspects) -> (c: Classification)
    ensures
        c == classification_of(*profile),
{
    let (axis, _) = dominant_axis(profile);
    Classification {
        axis,
        anxiety_high: profile.baseline_anxiety > 70,
        contract_signed: profile.contract_signed,
        has_constellation: profile.constellation_name.is_some(),
        has_keywords: profile.keywords.len() > 0,
    }
}

/// A verdict template: the classification it applies to (any axis when
/// `axis` is `None`) and its text, whose `{constellation}` and `{keyword}`
/// slots are filled from the profile.
#[derive(Debug, Clone, Copy, PartialEq, Eq)]
pub struct Template {
    pub axis: Option<Axis>,
    pub anxiety_high: bool,
    pub contract: bool,
    pub constellation: bool,
    pub keywords: bool,
    pub text: &'static str,
}

/// A template for the given classification and text.
#[verifier::allow_in_spec]
pub fn template(
    axis: Option<Axis>,
    anxiety_high: bool,
    contract: bool,
    constellation: bool,
    keywords: bool,
    text: &'static str,
) -> Template
    returns
        (Template { axis, anxiety_high, contract, constellation, keywords, text }),
{
    Template { axis, anxiety_high, contract, constellation, keywords, text }
}

/// `t` applies to the classification `c`.
pub open spec fn template_matches(t: Template, c: Classification) -> bool {
    &&& (t.axis matches Some(axis) ==> axis == c.axis)
    &&& t.anxiety_high == c.anxiety_high
    &&& t.contract == c.contract_signed
    &&& t.constellation == c.has_constellation
    &&& t.keywords == c.has_keywords
}

/// `t` is the neutral template: no axis and no marker.
pub open spec fn is_neutral(t: Template) -> bool {
    &&& t.axis is None
    &&& !t.anxiety_high
    &&& !t.contract
    &&& !t.constellation
    &&& !t.keywords
}

impl Template {
    fn matches(&self, c: &Classification) -> (r: bool)
        ensures
            r == template_matches(*self, *c),
    {
        if let Some(axis) = self.axis {
            if axis != c.axis {
                return false;
            }
        }
        if self.anxiety_high != c.anxiety_high {
            return false;
        }
        if self.contract != c.contract_signed {
            return false;
        }
        if self.constellation != c.has_constellation {
            return false;
        }
        if self.keywords != c.has_keywords {
            return false;
        }
        true
    }
}

pub const SOCIAL_PLAIN: &'static str = "Your dominant aura is social. In 2026 your main concern is other people's opinions, which is efficient: you can ignore reality and still trend.";
pub const SOCIAL_ANXIOUS: &'static str = "Your dominant aura is social and your anxiety has its own publicist. In 2026 your main concern is other people's opinions, broadcast live and unsponsored.";
pub const SOCIAL_CONTRACT: &'static str = "Your dominant aura is social. The Shadow Corporation has already processed your consent, and frankly you signed faster than you like a post.";
pub const SOCIAL_CONSTELLATION: &'static str = "Your dominant aura is social. You drew the constellation of the Crowd, and the Crowd has noticed you noticing it.";
pub const SOCIAL_KEYWORD: &'static str = "Your dominant aura is social. You collected the keyword '{keyword}', which the broadcast will now use to describe you to yourself.";
pub const SOCIAL_EVERYTHING: &'static str = "Your dominant aura is social, your anxiety is broadcast-grade, and your constellation '{constellation}' was filed under 'influencer'. The contract is signed.";
pub const ESOTERIC_PLAIN: &'static str = "Your dominant aura is esoteric. In 2026 your main concern is the collapse of ordinary reality, which is on schedule and does not require your attendance.";
pub const ESOTERIC_ANXIOUS: &'static str = "Your dominant aura is esoteric and your anxiety hums at a frequency only the radio understands. In 2026 your main concern is the collapse of ordinary reality.";
pub const ESOTERIC_CONTRACT: &'static str = "Your dominant aura is esoteric. The Shadow Corporation has already processed your consent, which it read in your aura before you arrived.";
pub const ESOTERIC_CONSTELLATION: &'static str = "Your dominant aura is esoteric. You drew the constellation '{constellation}', a shape the Oracle has seen exactly once and chosen not to explain.";
pub const ESOTERIC_KEYWORD: &'static str = "Your dominant aura is esoteric. You caught the keyword '{keyword}', which resonates with a door you have not opened yet.";
pub const ESOTERIC_EVERYTHING: &'static str = "Your dominant aura is esoteric, your anxiety is cosmic, your constellation '{constellation}' is sealed, and the keyword '{keyword}' is now part of the contract.";
pub const GEOPOLITICAL_PLAIN: &'static str = "Your dominant aura is geopolitical. In 2026 your main concern is geopolitical consequences, none of which will involve you personally, by design.";
pub const GEOPOLITICAL_ANXIOUS: &'static str = "Your dominant aura is geopolitical and your anxiety tracks the news in real time. In 2026 your main concern is geopolitical consequences, buffered by denial.";
pub const GEOPOLITICAL_CONTRACT: &'static str = "Your dominant aura is geopolitical. The Shadow Corporation has already processed your consent, which is now a matter of international record.";
pub const GEOPOLITICAL_CONSTELLATION: &'static str = "Your dominant aura is geopolitical. You drew the constellation '{constellation}', a map of borders that do not exist yet.";
pub const GEOPOLITICAL_KEYWORD: &'static str = "Your dominant aura is geopolitical. You logged the keyword '{keyword}', which the broadcast will cite as a primary source.";
pub const GEOPOLITICAL_EVERYTHING: &'static str = "Your dominant aura is geopolitical, your anxiety is diplomatic, your constellation '{constellation}' is classified, and the keyword '{keyword}' is redacted.";
pub const LOCUS_PLAIN: &'static str = "Your dominant aura is locus. In 2026 your main concern is the illusion of control, which you maintain with admirable discipline.";
pub const LOCUS_ANXIOUS: &'static str = "Your dominant aura is locus and your anxiety is a control panel with no off switch. In 2026 your main concern is the illusion of control.";
pub const LOCUS_CONTRACT: &'static str = "Your dominant aura is locus. The Shadow Corporation has already processed your consent, which you signed because you prefer to hold the pen.";
pub const LOCUS_CONSTELLATION: &'static str = "Your dominant aura is locus. You drew the constellation '{constellation}', a diagram of every lever you believe you pull.";
pub const LOCUS_KEYWORD: &'static str = "Your dominant aura is locus. You kept the keyword '{keyword}', a small control you can still pretend to own.";
pub const LOCUS_EVERYTHING: &'static str = "Your dominant aura is locus, your anxiety is the fine print, your constellation '{constellation}' is notarised, and the keyword '{keyword}' is yours until revoked.";
pub const ANY_ANXIOUS: &'static str = "Your anxiety has requested its own broadcast channel. Whatever your aura, in 2026 it will be accompanied by tasteful static.";
pub const ANY_CONTRACT: &'static str = "The Shadow Corporation thanks you for signing the contract. In 2026, your anxious thoughts will arrive strictly on schedule, and everything else is not your problem.";
pub const ANY_CONSTELLATION: &'static str = "You named a constellation: '{constellation}'. The Oracle will refer to you by it now, which is cheaper than a surname.";
pub const ANY_KEYWORD: &'static str = "You collected the keyword '{keyword}'. The broadcast will echo it back until it becomes a memory you are certain is yours.";
pub const ANY_ANXIOUS_CONTRACT: &'static str = "Your anxiety is high and the contract is signed. In 2026 the Shadow Corporation will worry on your behalf, efficiently and without refund.";
pub const NEUTRAL: &'static str = "According to our analysis, your main concern in 2026 is nothing. Geopolitical crises will pass you by because you are too busy drawing constellations that do not exist.";

/// The verdict templates, tried in this order.
pub open spec fn template_table() -> Seq<Template> {
    seq![
        template(Some(Axis::Social), false, false, false, false, SOCIAL_PLAIN),
        template(Some(Axis::Social), true, false, false, false, SOCIAL_ANXIOUS),
        template(Some(Axis::Social), false, true, false, false, SOCIAL_CONTRACT),
        template(Some(Axis::Social), false, false, true, false, SOCIAL_CONSTELLATION),
        template(Some(Axis::Social), false, false, false, true, SOCIAL_KEYWORD),
        template(Some(Axis::Social), true, true, true, true, SOCIAL_EVERYTHING),
        template(Some(Axis::Esoteric), false, false, false, false, ESOTERIC_PLAIN),
        template(Some(Axis::Esoteric), true, false, false, false, ESOTERIC_ANXIOUS),
        template(Some(Axis::Esoteric), false, true, false, false, ESOTERIC_CONTRACT),
        template(Some(Axis::Esoteric), false, false, true, false, ESOTERIC_CONSTELLATION),
        template(Some(Axis::Esoteric), false, false, false, true, ESOTERIC_KEYWORD),
        template(Some(Axis::Esoteric), true, true, true, true, ESOTERIC_EVERYTHING),
        template(Some(Axis::Geopolitical), false, false, false, false, GEOPOLITICAL_PLAIN),
        template(Some(Axis::Geopolitical), true, false, false, false, GEOPOLITICAL_ANXIOUS),
        template(Some(Axis::Geopolitical), false, true, false, false, GEOPOLITICAL_CONTRACT),
        template(Some(Axis::Geopolitical), false, false, true, false, GEOPOLITICAL_CONSTELLATION),
        template(Some(Axis::Geopolitical), false, false, false, true, GEOPOLITICAL_KEYWORD),
        template(Some(Axis::Geopolitical), true, true, true, true, GEOPOLITICAL_EVERYTHING),
        template(Some(Axis::Locus), false, false, false, false, LOCUS_PLAIN),
        template(Some(Axis::Locus), true, false, false, false, LOCUS_ANXIOUS),
        template(Some(Axis::Locus), false, true, false, false, LOCUS_CONTRACT),
        template(Some(Axis::Locus), false, false, true, false, LOCUS_CONSTELLATION),
        template(Some(Axis::Locus), false, false, false, true, LOCUS_KEYWORD),
        template(Some(Axis::Locus), true, true, true, true, LOCUS_EVERYTHING),
        template(None, true, false, false, false, ANY_ANXIOUS),
        template(None, false, true, false, false, ANY_CONTRACT),
        template(None, false, false, true, false, ANY_CONSTELLATION),
        template(None, false, false, false, true, ANY_KEYWORD),
        template(None, true, true, false, false, ANY_ANXIOUS_CONTRACT),
        template(None, false, false, false, false, NEUTRAL),
    ]
}

/// The verdict templates, in the order they are tried.
fn templates() -> (table: Vec<Template>)
    ensures
        table@ == template_table(),
{
    let mut table: Vec<Template> = Vec::new();
    table.push(template(Some(Axis::Social), false, false, false, false, SOCIAL_PLAIN));
    table.push(template(Some(Axis::Social), true, false, false, false, SOCIAL_ANXIOUS));
    table.push(template(Some(Axis::Social), false, true, false, false, SOCIAL_CONTRACT));
    table.push(template(Some(Axis::Social), false, false, true, false, SOCIAL_CONSTELLATION));
    table.push(template(Some(Axis::Social), false, false, false, true, SOCIAL_KEYWORD));
    table.push(template(Some(Axis::Social), true, true, true, true, SOCIAL_EVERYTHING));
    table.push(template(Some(Axis::Esoteric), false, false, false, false, ESOTERIC_PLAIN));
    table.push(template(Some(Axis::Esoteric), true, false, false, false, ESOTERIC_ANXIOUS));
    table.push(template(Some(Axis::Esoteric), false, true, false, false, ESOTERIC_CONTRACT));
    table.push(template(Some(Axis::Esoteric), false, false, true, false, ESOTERIC_CONSTELLATION));
    table.push(template(Some(Axis::Esoteric), false, false, false, true, ESOTERIC_KEYWORD));
    table.push(template(Some(Axis::Esoteric), true, true, true, true, ESOTERIC_EVERYTHING));
    table.push(template(Some(Axis::Geopolitical), false, false, false, false, GEOPOLITICAL_PLAIN));
    table.push(template(Some(Axis::Geopolitical), true, false, false, false, GEOPOLITICAL_ANXIOUS));
    table.push(template(Some(Axis::Geopolitical), false, true, false, false, GEOPOLITICAL_CONTRACT));
    table.push(template(Some(Axis::Geopolitical), false, false, true, false, GEOPOLITICAL_CONSTELLATION));
    table.push(template(Some(Axis::Geopolitical), false, false, false, true, GEOPOLITICAL_KEYWORD));
    table.push(template(Some(Axis::Geopolitical), true, true, true, true, GEOPOLITICAL_EVERYTHING));
    table.push(template(Some(Axis::Locus), false, false, false, false, LOCUS_PLAIN));
    table.push(template(Some(Axis::Locus), true, false, false, false, LOCUS_ANXIOUS));
    table.push(template(Some(Axis::Locus), false, true, false, false, LOCUS_CONTRACT));
    table.push(template(Some(Axis::Locus), false, false, true, false, LOCUS_CONSTELLATION));
    table.push(template(Some(Axis::Locus), false, false, false, true, LOCUS_KEYWORD));
    table.push(template(Some(Axis::Locus), true, true, true, true, LOCUS_EVERYTHING));
    table.push(template(None, true, false, false, false, ANY_ANXIOUS));
    table.push(template(None, false, true, false, false, ANY_CONTRACT));
    table.push(template(None, false, false, true, false, ANY_CONSTELLATION));
    table.push(template(None, false, false, false, true, ANY_KEYWORD));
    table.push(template(None, true, true, false, false, ANY_ANXIOUS_CONTRACT));
    table.push(template(None, false, false, false, false, NEUTRAL));
    proof {
        assert(table@ =~= template_table());
    }
    table
}

/// The index of the first template in `table` that applies to `c`.
pub open spec fn first_match(table: Seq<Template>, c: Classification) -> Option<int>
    decreases table.len(),
{
    if table.len() == 0 {
        None
    } else if template_matches(table[0], c) {
        Some(0)
    } else {
        match first_match(table.drop_first(), c) {
            Some(i) => Some(i + 1),
            None => None,
        }
    }
}

/// The index of the first neutral template in `table`.
pub open spec fn first_neutral(table: Seq<Template>) -> Option<int>
    decreases table.len(),
{
    if table.len() == 0 {
        None
    } else if is_neutral(table[0]) {
        Some(0)
    } else {
        match first_neutral(table.drop_first()) {
            Some(i) => Some(i + 1),
            None => None,
        }
    }
}

/// The template a classification selects: the first one that applies, or
/// the neutral fallback when none does.
pub open spec fn chosen_template(c: Classification) -> Template {
    match first_match(template_table(), c) {
        Some(i) => template_table()[i],
        None => template_table()[first_neutral(template_table()).unwrap()],
    }
}

/// The word the verdict fills into its slots: the constellation's name, or
/// else the first keyword, or else "absolutely nothing".
pub open spec fn marker_of(p: PlayerAspects) -> Seq<char> {
    match p.constellation_name {
        Some(name) => name@,
        None => if p.keywords@.len() > 0 {
            p.keywords@[0]@
        } else {
            "absolutely nothing"@
        },
    }
}

/// The line on the player's anxiety.
pub open spec fn anxiety_line(high: bool) -> Seq<char> {
    if high {
        "Your anxiety has requested its own broadcast channel."@
    } else {
        "Your anxiety remains within commercially acceptable limits."@
    }
}

/// The line on the shadow contract.
pub open spec fn contract_line(signed: bool) -> Seq<char> {
    if signed {
        "The Shadow Corporation has already processed your consent."@
    } else {
        "No shadow contract was signed, which is suspiciously responsible."@
    }
}

/// The text of the chosen template with both slots filled by the marker.
pub open spec fn verdict_body(p: PlayerAspects) -> Seq<char> {
    let t = chosen_template(classification_of(p));
    let m = marker_of(p);
    replaced(replaced(t.text@, "{constellation}"@, m), "{keyword}"@, m)
}

/// The full verdict on a profile.
pub open spec fn verdict_text(p: PlayerAspects) -> Seq<char> {
    let c = classification_of(p);
    let (axis, value) = dominant_of(p);
    let m = marker_of(p);
    "ORACLE VERDICT\n\nYour dominant aura is "@ + axis_name(axis) + " ("@ + decimal(value as nat)
        + "/100). Your main concern in 2026 is "@ + axis_concern(axis) + ".\n\n"@ + verdict_body(p)
        + "\n\n"@ + anxiety_line(c.anxiety_high) + " "@ + contract_line(c.contract_signed)
        + "\n\nRemember "@ + m + ": everything is temporary, especially your certainty."@
}

/// A neutral entry at `k` means the search for one succeeds.
proof fn lemma_first_neutral_found(table: Seq<Template>, k: int)
    requires
        0 <= k < table.len(),
        is_neutral(table[k]),
    ensures
        first_neutral(table) matches Some(i) && 0 <= i < table.len() && is_neutral(table[i]),
    decreases table.len(),
{
    if !is_neutral(table[0]) {
        lemma_first_neutral_found(table.drop_first(), k - 1);
    }
}

/// The template the classification selects.
fn select_template(c: &Classification) -> (t: Template)
    ensures
        t == chosen_template(*c),
{
    let table = templates();
    let n = table.len();
    let mut i: usize = 0;
    proof {
        assert(table@.skip(0) =~= table@);
    }
    while i < n
        invariant
            table@ == template_table(),
            n == table.len(),
            i <= n,
            first_match(table@, *c) == (match first_match(table@.skip(i as int), *c) {
                Some(j) => Some(j + i),
                None => None::<int>,
            }),
        decreases n - i,
    {
        let ghost rest = table@.skip(i as int);
        if table[i].matches(c) {
            proof {
                assert(rest[0] == table@[i as int]);
            }
            return table[i];
        }
        proof {
            assert(rest[0] == table@[i as int]);
            assert(rest.drop_first() =~= table@.skip(i + 1));
        }
        i = i + 1;
    }
    proof {
        assert(table@.skip(n as int).len() == 0);
        assert(is_neutral(table@[29]));
        lemma_first_neutral_found(table@, 29);
        assert(table@.skip(0) =~= table@);
    }
    let mut k: usize = 0;
    while k < n
        invariant
            table@ == template_table(),
            n == table.len(),
            k <= n,
            first_neutral(table@) is Some,
            first_match(table@, *c) is None,
            first_neutral(table@) == (match first_neutral(table@.skip(k as int)) {
                Some(j) => Some(j + k),
                None => None::<int>,
            }),
        decreases n - k,
    {
        let ghost rest = table@.skip(k as int);
        let t = table[k];
        if t.axis.is_none() && !t.anxiety_high && !t.contract && !t.constellation && !t.keywords {
            proof {
                assert(rest[0] == table@[k as int]);
            }
            return t;
        }
        proof {
            assert(rest[0] == table@[k as int]);
            assert(rest.drop_first() =~= table@.skip(k + 1));
        }
        k = k + 1;
    }
    proof {
        assert(table@.skip(n as int).len() == 0);
    }
    table[29]
}

/// Generate a deterministic, English-language Oracle verdict for a profile.
pub fn generate(profile: &PlayerAspects) -> (verdict: String)
    ensures
        verdict@ == verdict_text(*profile),
{
    let classification = classify(profile);
    let (axis, value) = dominant_axis(profile);
    let template = select_template(&classification);
    let marker: &str = match &profile.constellation_name {
        Some(name) => name.as_str(),
        None => if profile.keywords.len() > 0 {
            profile.keywords[0].as_str()
        } else {
            "absolutely nothing"
        },
    };
    let anxiety = if classification.anxiety_high {
        "Your anxiety has requested its own broadcast channel."
    } else {
        "Your anxiety remains within commercially acceptable limits."
    };
    let contract = if classification.contract_signed {
        "The Shadow Corporation has already processed your consent."
    } else {
        "No shadow contract was signed, which is suspiciously responsible."
    };
    proof {
        reveal_strlit("{constellation}");
        reveal_strlit("{keyword}");
    }
    let filled = replace_all(template.text, "{constellation}", marker);
    let text = replace_all(filled.as_str(), "{keyword}", marker);
    let mut out = String::new();
    out.append("ORACLE VERDICT\n\nYour dominant aura is ");
    out.append(axis.name());
    out.append(" (");
    push_decimal(&mut out, value as u64);
    out.append("/100). Your main concern in 2026 is ");
    out.append(axis.concern());
    out.append(".\n\n");
    out.append(text.as_str());
    out.append("\n\n");
    out.append(anxiety);
    out.append(" ");
    out.append(contract);
    out.append("\n\nRemember ");
    out.append(marker);
    out.append(": everything is temporary, especially your certainty.");
    proof {
        assert(out@ =~= verdict_text(*profile));
    }
    out
}

/// Every verdict opens with the "ORACLE VERDICT" heading and runs to more
/// than forty characters.
pub proof fn lemma_verdict_opens_with_heading(p: PlayerAspects)
    ensures
        verdict_text(p).len() > 40,
        verdict_text(p).subrange(0, 14) == "ORACLE VERDICT"@,
{
    reveal_strlit("ORACLE VERDICT");
    reveal_strlit("ORACLE VERDICT\n\nYour dominant aura is ");
    reveal_strlit("social");
    reveal_strlit("esoteric");
    reveal_strlit("geopolitical");
    reveal_strlit("locus");
    let head = "ORACLE VERDICT\n\nYour dominant aura is "@;
    let rest = verdict_text(p).subrange(head.len() as int, verdict_text(p).len() as int);
    assert(verdict_text(p) =~= head + rest);
    assert(verdict_text(p).subrange(0, 14) =~= "ORACLE VERDICT"@);
}

/// Every verdict names its marker: the constellation, else the first
/// keyword, else "absolutely nothing".
pub proof fn lemma_verdict_names_marker(p: PlayerAspects)
    ensures
        exists|k: int|
            0 <= k && k + marker_of(p).len() <= verdict_text(p).len() && #[trigger] verdict_text(
                p,
            ).subrange(k, k + marker_of(p).len()) == marker_of(p),
{
    let m = marker_of(p);
    let tail = ": everything is temporary, especially your certainty."@;
    let v = verdict_text(p);
    let k = v.len() - tail.len() - m.len();
    let front = v.subrange(0, k);
    assert(v.subrange(k, k + m.len()) =~= m);
}

/// Every `{` in `s` opens a `{keyword}` or a `{constellation}` slot.
pub open spec fn slot_braces(s: Seq<char>) -> bool {
    forall|j: int|
        0 <= j < s.len() && #[trigger] s[j] == '{' ==> occurs(s, j, "{keyword}"@) || occurs(
            s,
            j,
            "{constellation}"@,
        )
}

/// Every `{` in `s` opens a `{keyword}` slot.
pub open spec fn keyword_braces(s: Seq<char>) -> bool {
    forall|j: int| 0 <= j < s.len() && #[trigger] s[j] == '{' ==> occurs(s, j, "{keyword}"@)
}

proof fn lemma_occurs_skip(s: Seq<char>, n: int, j: int, p: Seq<char>)
    requires
        0 <= n <= s.len(),
        0 <= j,
    ensures
        occurs(s.skip(n), j, p) == occurs(s, j + n, p),
{
    if j + n + p.len() <= s.len() {
        assert(s.skip(n).subrange(j, j + p.len()) =~= s.subrange(j + n, j + n + p.len()));
    }
}

proof fn lemma_slot_braces_skip(s: Seq<char>, n: int)
    requires
        0 <= n <= s.len(),
        slot_braces(s),
    ensures
        slot_braces(s.skip(n)),
{
    assert forall|j: int| 0 <= j < s.skip(n).len() && #[trigger] s.skip(n)[j] == '{' implies occurs(
        s.skip(n),
        j,
        "{keyword}"@,
    ) || occurs(s.skip(n), j, "{constellation}"@) by {
        assert(s[j + n] == '{');
        lemma_occurs_skip(s, n, j, "{keyword}"@);
        lemma_occurs_skip(s, n, j, "{constellation}"@);
    }
}

proof fn lemma_keyword_braces_skip(s: Seq<char>, n: int)
    requires
        0 <= n <= s.len(),
        keyword_braces(s),
    ensures
        keyword_braces(s.skip(n)),
{
    assert forall|j: int| 0 <= j < s.skip(n).len() && #[trigger] s.skip(n)[j] == '{' implies occurs(
        s.skip(n),
        j,
        "{keyword}"@,
    ) by {
        assert(s[j + n] == '{');
        lemma_occurs_skip(s, n, j, "{keyword}"@);
    }
}

/// Putting `a` in front of `b` keeps every `{` of `b` opening a keyword
/// slot, and a `{` of `a` does too where it opens one in `a + b`.
proof fn lemma_keyword_braces_prepend(a: Seq<char>, b: Seq<char>)
    requires
        keyword_braces(b),
        forall|j: int| 0 <= j < a.len() && #[trigger] a[j] == '{' ==> occurs(a + b, j, "{keyword}"@),
    ensures
        keyword_braces(a + b),
{
    let s = a + b;
    assert(s.skip(a.len() as int) =~= b);
    assert forall|j: int| 0 <= j < s.len() && #[trigger] s[j] == '{' implies occurs(
        s,
        j,
        "{keyword}"@,
    ) by {
        if j >= a.len() {
            assert(b[j - a.len()] == '{');
            lemma_occurs_skip(s, a.len() as int, j - a.len(), "{keyword}"@);
        } else {
            assert(a[j] == '{');
        }
    }
}

/// A `{keyword}` slot at the front of `s` survives the filling of the
/// `{constellation}` slots.
proof fn lemma_keyword_slot_survives(s: Seq<char>, m: Seq<char>)
    requires
        occurs(s, 0, "{keyword}"@),
    ensures
        occurs(seq![s[0]] + replaced(s.skip(1), "{constellation}"@, m), 0, "{keyword}"@),
{
    reveal_strlit("{constellation}");
    reveal_strlit("{keyword}");
    let c = "{constellation}"@;
    let k = "{keyword}"@;
    let y = replaced(s.skip(1), c, m);
    assert(s.skip(1) =~= k.skip(1) + s.skip(9));
    lemma_replaced_keeps_plain_prefix(k.skip(1), s.skip(9), c, m);
    assert((seq![s[0]] + y).subrange(0, 9) =~= k);
}

/// Filling the `{constellation}` slots with a text without `{` leaves only
/// keyword slots open.
#[verifier::spinoff_prover]
proof fn lemma_fill_constellation(s: Seq<char>, m: Seq<char>)
    requires
        slot_braces(s),
        lacks(m, '{'),
    ensures
        keyword_braces(replaced(s, "{constellation}"@, m)),
    decreases s.len(),
{
    reveal_strlit("{constellation}");
    let c = "{constellation}"@;
    if s.len() == 0 {
    } else if c.len() <= s.len() && s.subrange(0, c.len() as int) == c {
        lemma_slot_braces_skip(s, c.len() as int);
        lemma_fill_constellation(s.skip(c.len() as int), m);
        lemma_keyword_braces_prepend(m, replaced(s.skip(c.len() as int), c, m));
    } else {
        lemma_slot_braces_skip(s, 1);
        lemma_fill_constellation(s.skip(1), m);
        if s[0] == '{' {
            assert(occurs(s, 0, "{keyword}"@));
            lemma_keyword_slot_survives(s, m);
        }
        lemma_keyword_braces_prepend(seq![s[0]], replaced(s.skip(1), c, m));
    }
}

/// Filling the `{keyword}` slots of a text whose only `{` open them, with a
/// text without `{`, leaves no `{` at all.
proof fn lemma_fill_keyword(t: Seq<char>, m: Seq<char>)
    requires
        keyword_braces(t),
        lacks(m, '{'),
    ensures
        lacks(replaced(t, "{keyword}"@, m), '{'),
    decreases t.len(),
{
    reveal_strlit("{keyword}");
    let k = "{keyword}"@;
    if t.len() == 0 {
    } else if k.len() <= t.len() && t.subrange(0, k.len() as int) == k {
        lemma_keyword_braces_skip(t, k.len() as int);
        lemma_fill_keyword(t.skip(k.len() as int), m);
        lemma_lacks_concat(m, replaced(t.skip(k.len() as int), k, m), '{');
    } else {
        lemma_keyword_braces_skip(t, 1);
        lemma_fill_keyword(t.skip(1), m);
        lemma_lacks_concat(seq![t[0]], replaced(t.skip(1), k, m), '{');
    }
}

/// The social templates open `{` only for their slots, and each opens by
/// naming the social axis.
#[verifier::spinoff_prover]
proof fn lemma_social_templates_have_only_slots()
    ensures
        slot_braces(SOCIAL_PLAIN@),
        slot_braces(SOCIAL_ANXIOUS@),
        slot_braces(SOCIAL_CONTRACT@),
        slot_braces(SOCIAL_CONSTELLATION@),
        slot_braces(SOCIAL_KEYWORD@),
        slot_braces(SOCIAL_EVERYTHING@),
        opens_with(SOCIAL_PLAIN@, aura_opening(Axis::Social)),
        opens_with(SOCIAL_ANXIOUS@, aura_opening(Axis::Social)),
        opens_with(SOCIAL_CONTRACT@, aura_opening(Axis::Social)),
        opens_with(SOCIAL_CONSTELLATION@, aura_opening(Axis::Social)),
        opens_with(SOCIAL_KEYWORD@, aura_opening(Axis::Social)),
        opens_with(SOCIAL_EVERYTHING@, aura_opening(Axis::Social)),
{
    reveal_strlit("Your dominant aura is ");
    reveal_strlit("social");
    reveal_strlit("{keyword}");
    reveal_strlit("{constellation}");
    reveal_strlit("Your dominant aura is social. In 2026 your main concern is other people's opinions, which is efficient: you can ignore reality and still trend.");
    reveal_strlit("Your dominant aura is social and your anxiety has its own publicist. In 2026 your main concern is other people's opinions, broadcast live and unsponsored.");
    reveal_strlit("Your dominant aura is social. The Shadow Corporation has already processed your consent, and frankly you signed faster than you like a post.");
    reveal_strlit("Your dominant aura is social. You drew the constellation of the Crowd, and the Crowd has noticed you noticing it.");
    reveal_strlit("Your dominant aura is social. You collected the keyword '{keyword}', which the broadcast will now use to describe you to yourself.");
    assert(SOCIAL_KEYWORD@.subrange(57, 66) =~= "{keyword}"@);
    reveal_strlit("Your dominant aura is social, your anxiety is broadcast-grade, and your constellation '{constellation}' was filed under 'influencer'. The contract is signed.");
    assert(SOCIAL_EVERYTHING@.subrange(87, 102) =~= "{constellation}"@);
    assert(SOCIAL_ANXIOUS@.subrange(0, 28) =~= aura_opening(Axis::Social));
    assert(SOCIAL_CONSTELLATION@.subrange(0, 28) =~= aura_opening(Axis::Social));
    assert(SOCIAL_CONTRACT@.subrange(0, 28) =~= aura_opening(Axis::Social));
    assert(SOCIAL_EVERYTHING@.subrange(0, 28) =~= aura_opening(Axis::Social));
    assert(SOCIAL_KEYWORD@.subrange(0, 28) =~= aura_opening(Axis::Social));
    assert(SOCIAL_PLAIN@.subrange(0, 28) =~= aura_opening(Axis::Social));
}

/// The esoteric templates open `{` only for their slots, and each opens by
/// naming the esoteric axis.
#[verifier::spinoff_prover]
proof fn lemma_esoteric_templates_have_only_slots()
    ensures
        slot_braces(ESOTERIC_PLAIN@),
        slot_braces(ESOTERIC_ANXIOUS@),
        slot_braces(ESOTERIC_CONTRACT@),
        slot_braces(ESOTERIC_CONSTELLATION@),
        slot_braces(ESOTERIC_KEYWORD@),
        slot_braces(ESOTERIC_EVERYTHING@),
        opens_with(ESOTERIC_PLAIN@, aura_opening(Axis::Esoteric)),
        opens_with(ESOTERIC_ANXIOUS@, aura_opening(Axis::Esoteric)),
        opens_with(ESOTERIC_CONTRACT@, aura_opening(Axis::Esoteric)),
        opens_with(ESOTERIC_CONSTELLATION@, aura_opening(Axis::Esoteric)),
        opens_with(ESOTERIC_KEYWORD@, aura_opening(Axis::Esoteric)),
        opens_with(ESOTERIC_EVERYTHING@, aura_opening(Axis::Esoteric)),
{
    reveal_strlit("Your dominant aura is ");
    reveal_strlit("esoteric");
    reveal_strlit("{keyword}");
    reveal_strlit("{constellation}");
    reveal_strlit("Your dominant aura is esoteric. In 2026 your main concern is the collapse of ordinary reality, which is on schedule and does not require your attendance.");
    reveal_strlit("Your dominant aura is esoteric and your anxiety hums at a frequency only the radio understands. In 2026 your main concern is the collapse of ordinary reality.");
    reveal_strlit("Your dominant aura is esoteric. The Shadow Corporation has already processed your consent, which it read in your aura before you arrived.");
    reveal_strlit("Your dominant aura is esoteric. You drew the constellation '{constellation}', a shape the Oracle has seen exactly once and chosen not to explain.");
    assert(ESOTERIC_CONSTELLATION@.subrange(60, 75) =~= "{constellation}"@);
    reveal_strlit("Your dominant aura is esoteric. You caught the keyword '{keyword}', which resonates with a door you have not opened yet.");
    assert(ESOTERIC_KEYWORD@.subrange(56, 65) =~= "{keyword}"@);
    reveal_strlit("Your dominant aura is esoteric, your anxiety is cosmic, your constellation '{constellation}' is sealed, and the keyword '{keyword}' is now part of the contract.");
    assert(ESOTERIC_EVERYTHING@.subrange(76, 91) =~= "{constellation}"@);
    assert(ESOTERIC_EVERYTHING@.subrange(121, 130) =~= "{keyword}"@);
    assert(ESOTERIC_ANXIOUS@.subrange(0, 30) =~= aura_opening(Axis::Esoteric));
    assert(ESOTERIC_CONSTELLATION@.subrange(0, 30) =~= aura_opening(Axis::Esoteric));
    assert(ESOTERIC_CONTRACT@.subrange(0, 30) =~= aura_opening(Axis::Esoteric));
    assert(ESOTERIC_EVERYTHING@.subrange(0, 30) =~= aura_opening(Axis::Esoteric));
    assert(ESOTERIC_KEYWORD@.subrange(0, 30) =~= aura_opening(Axis::Esoteric));
    assert(ESOTERIC_PLAIN@.subrange(0, 30) =~= aura_opening(Axis::Esoteric));
}

/// The geopolitical templates open `{` only for their slots, and each opens by
/// naming the geopolitical axis.
#[verifier::spinoff_prover]
proof fn lemma_geopolitical_templates_have_only_slots()
    ensures
        slot_braces(GEOPOLITICAL_PLAIN@),
        slot_braces(GEOPOLITICAL_ANXIOUS@),
        slot_braces(GEOPOLITICAL_CONTRACT@),
        slot_braces(GEOPOLITICAL_CONSTELLATION@),
        slot_braces(GEOPOLITICAL_KEYWORD@),
        slot_braces(GEOPOLITICAL_EVERYTHING@),
        opens_with(GEOPOLITICAL_PLAIN@, aura_opening(Axis::Geopolitical)),
        opens_with(GEOPOLITICAL_ANXIOUS@, aura_opening(Axis::Geopolitical)),
        opens_with(GEOPOLITICAL_CONTRACT@, aura_opening(Axis::Geopolitical)),
        opens_with(GEOPOLITICAL_CONSTELLATION@, aura_opening(Axis::Geopolitical)),
        opens_with(GEOPOLITICAL_KEYWORD@, aura_opening(Axis::Geopolitical)),
        opens_with(GEOPOLITICAL_EVERYTHING@, aura_opening(Axis::Geopolitical)),
{
    reveal_strlit("Your dominant aura is ");
    reveal_strlit("geopolitical");
    reveal_strlit("{keyword}");
    reveal_strlit("{constellation}");
    reveal_strlit("Your dominant aura is geopolitical. In 2026 your main concern is geopolitical consequences, none of which will involve you personally, by design.");
    reveal_strlit("Your dominant aura is geopolitical and your anxiety tracks the news in real time. In 2026 your main concern is geopolitical consequences, buffered by denial.");
    reveal_strlit("Your dominant aura is geopolitical. The Shadow Corporation has already processed your consent, which is now a matter of international record.");
    reveal_strlit("Your dominant aura is geopolitical. You drew the constellation '{constellation}', a map of borders that do not exist yet.");
    assert(GEOPOLITICAL_CONSTELLATION@.subrange(64, 79) =~= "{constellation}"@);
    reveal_strlit("Your dominant aura is geopolitical. You logged the keyword '{keyword}', which the broadcast will cite as a primary source.");
    assert(GEOPOLITICAL_KEYWORD@.subrange(60, 69) =~= "{keyword}"@);
    reveal_strlit("Your dominant aura is geopolitical, your anxiety is diplomatic, your constellation '{constellation}' is classified, and the keyword '{keyword}' is redacted.");
    assert(GEOPOLITICAL_EVERYTHING@.subrange(84, 99) =~= "{constellation}"@);
    assert(GEOPOLITICAL_EVERYTHING@.subrange(133, 142) =~= "{keyword}"@);
    assert(GEOPOLITICAL_ANXIOUS@.subrange(0, 34) =~= aura_opening(Axis::Geopolitical));
    assert(GEOPOLITICAL_CONSTELLATION@.subrange(0, 34) =~= aura_opening(Axis::Geopolitical));
    assert(GEOPOLITICAL_CONTRACT@.subrange(0, 34) =~= aura_opening(Axis::Geopolitical));
    assert(GEOPOLITICAL_EVERYTHING@.subrange(0, 34) =~= aura_opening(Axis::Geopolitical));
    assert(GEOPOLITICAL_KEYWORD@.subrange(0, 34) =~= aura_opening(Axis::Geopolitical));
    assert(GEOPOLITICAL_PLAIN@.subrange(0, 34) =~= aura_opening(Axis::Geopolitical));
}

/// The locus templates open `{` only for their slots, and each opens by
/// naming the locus axis.
#[verifier::spinoff_prover]
proof fn lemma_locus_templates_have_only_slots()
    ensures
        slot_braces(LOCUS_PLAIN@),
        slot_braces(LOCUS_ANXIOUS@),
        slot_braces(LOCUS_CONTRACT@),
        slot_braces(LOCUS_CONSTELLATION@),
        slot_braces(LOCUS_KEYWORD@),
        slot_braces(LOCUS_EVERYTHING@),
        opens_with(LOCUS_PLAIN@, aura_opening(Axis::Locus)),
        opens_with(LOCUS_ANXIOUS@, aura_opening(Axis::Locus)),
        opens_with(LOCUS_CONTRACT@, aura_opening(Axis::Locus)),
        opens_with(LOCUS_CONSTELLATION@, aura_opening(Axis::Locus)),
        opens_with(LOCUS_KEYWORD@, aura_opening(Axis::Locus)),
        opens_with(LOCUS_EVERYTHING@, aura_opening(Axis::Locus)),
{
    reveal_strlit("Your dominant aura is ");
    reveal_strlit("locus");
    reveal_strlit("{keyword}");
    reveal_strlit("{constellation}");
    reveal_strlit("Your dominant aura is locus. In 2026 your main concern is the illusion of control, which you maintain with admirable discipline.");
    reveal_strlit("Your dominant aura is locus and your anxiety is a control panel with no off switch. In 2026 your main concern is the illusion of control.");
    reveal_strlit("Your dominant aura is locus. The Shadow Corporation has already processed your consent, which you signed because you prefer to hold the pen.");
    reveal_strlit("Your dominant aura is locus. You drew the constellation '{constellation}', a diagram of every lever you believe you pull.");
    assert(LOCUS_CONSTELLATION@.subrange(57, 72) =~= "{constellation}"@);
    reveal_strlit("Your dominant aura is locus. You kept the keyword '{keyword}', a small control you can still pretend to own.");
    assert(LOCUS_KEYWORD@.subrange(51, 60) =~= "{keyword}"@);
    reveal_strlit("Your dominant aura is locus, your anxiety is the fine print, your constellation '{constellation}' is notarised, and the keyword '{keyword}' is yours until revoked.");
    assert(LOCUS_EVERYTHING@.subrange(81, 96) =~= "{constellation}"@);
    assert(LOCUS_EVERYTHING@.subrange(129, 138) =~= "{keyword}"@);
    assert(LOCUS_ANXIOUS@.subrange(0, 27) =~= aura_opening(Axis::Locus));
    assert(LOCUS_CONSTELLATION@.subrange(0, 27) =~= aura_opening(Axis::Locus));
    assert(LOCUS_CONTRACT@.subrange(0, 27) =~= aura_opening(Axis::Locus));
    assert(LOCUS_EVERYTHING@.subrange(0, 27) =~= aura_opening(Axis::Locus));
    assert(LOCUS_KEYWORD@.subrange(0, 27) =~= aura_opening(Axis::Locus));
    assert(LOCUS_PLAIN@.subrange(0, 27) =~= aura_opening(Axis::Locus));
}

/// The axis-free templates and the neutral one open `{` only for their slots.
#[verifier::spinoff_prover]
proof fn lemma_any_templates_have_only_slots()
    ensures
        slot_braces(ANY_ANXIOUS@),
        slot_braces(ANY_CONTRACT@),
        slot_braces(ANY_CONSTELLATION@),
        slot_braces(ANY_KEYWORD@),
        slot_braces(ANY_ANXIOUS_CONTRACT@),
        slot_braces(NEUTRAL@),
{
    reveal_strlit("{keyword}");
    reveal_strlit("{constellation}");
    reveal_strlit("Your anxiety has requested its own broadcast channel. Whatever your aura, in 2026 it will be accompanied by tasteful static.");
    reveal_strlit("The Shadow Corporation thanks you for signing the contract. In 2026, your anxious thoughts will arrive strictly on schedule, and everything else is not your problem.");
    reveal_strlit("You named a constellation: '{constellation}'. The Oracle will refer to you by it now, which is cheaper than a surname.");
    assert(ANY_CONSTELLATION@.subrange(28, 43) =~= "{constellation}"@);
    reveal_strlit("You collected the keyword '{keyword}'. The broadcast will echo it back until it becomes a memory you are certain is yours.");
    assert(ANY_KEYWORD@.subrange(27, 36) =~= "{keyword}"@);
    reveal_strlit("Your anxiety is high and the contract is signed. In 2026 the Shadow Corporation will worry on your behalf, efficiently and without refund.");
    reveal_strlit("According to our analysis, your main concern in 2026 is nothing. Geopolitical crises will pass you by because you are too busy drawing constellations that do not exist.");
}

/// `s` begins with `p`.
pub open spec fn opens_with(s: Seq<char>, p: Seq<char>) -> bool {
    p.len() <= s.len() && s.subrange(0, p.len() as int) == p
}

/// How a text about the dominant axis `a` opens.
pub open spec fn aura_opening(a: Axis) -> Seq<char> {
    "Your dominant aura is "@ + axis_name(a)
}

/// Every template opens `{` only for its slots.
proof fn lemma_templates_have_only_slots()
    ensures
        forall|i: int|
            0 <= i < template_table().len() ==> slot_braces(#[trigger] template_table()[i].text@),
{
    lemma_social_templates_have_only_slots();
    lemma_esoteric_templates_have_only_slots();
    lemma_geopolitical_templates_have_only_slots();
    lemma_locus_templates_have_only_slots();
    lemma_any_templates_have_only_slots();
}

/// Every template made for one axis opens by naming that axis.
proof fn lemma_templates_name_their_axis()
    ensures
        forall|i: int|
            0 <= i < template_table().len() ==> ((#[trigger] template_table()[i]).axis matches Some(
                a,
            ) ==> opens_with(template_table()[i].text@, aura_opening(a))),
{
    lemma_social_templates_have_only_slots();
    lemma_esoteric_templates_have_only_slots();
    lemma_geopolitical_templates_have_only_slots();
    lemma_locus_templates_have_only_slots();
}

/// A match found in `table` applies to the classification.
proof fn lemma_first_match_applies(table: Seq<Template>, c: Classification)
    ensures
        first_match(table, c) matches Some(i) ==> 0 <= i < table.len() && template_matches(
            table[i],
            c,
        ),
    decreases table.len(),
{
    if table.len() > 0 && !template_matches(table[0], c) {
        lemma_first_match_applies(table.drop_first(), c);
    }
}

/// When the chosen template is made for one axis, the verdict's body opens
/// by naming the profile's dominant axis: a profile dominated by one axis is
/// never told about another.
pub proof fn lemma_verdict_body_names_dominant_axis(p: PlayerAspects)
    ensures
        chosen_template(classification_of(p)).axis is Some ==> opens_with(
            verdict_body(p),
            aura_opening(dominant_of(p).0),
        ),
{
    let c = classification_of(p);
    let t = chosen_template(c);
    lemma_first_match_applies(template_table(), c);
    if first_match(template_table(), c) is None {
        lemma_first_neutral_found(template_table(), 29);
    }
    if t.axis is Some {
        let a = dominant_of(p).0;
        let head = aura_opening(a);
        lemma_templates_name_their_axis();
        assert(t.axis == Some(a));
        assert(opens_with(t.text@, head));
        reveal_strlit("Your dominant aura is ");
        reveal_strlit("social");
        reveal_strlit("esoteric");
        reveal_strlit("geopolitical");
        reveal_strlit("locus");
        reveal_strlit("{constellation}");
        reveal_strlit("{keyword}");
        assert(lacks(head, '{'));
        let m = marker_of(p);
        let rest = t.text@.subrange(head.len() as int, t.text@.len() as int);
        assert(t.text@ =~= head + rest);
        lemma_replaced_keeps_plain_prefix(head, rest, "{constellation}"@, m);
        let mid = replaced(rest, "{constellation}"@, m);
        lemma_replaced_keeps_plain_prefix(head, mid, "{keyword}"@, m);
        assert(verdict_body(p) == head + replaced(mid, "{keyword}"@, m));
        assert((head + replaced(mid, "{keyword}"@, m)).subrange(0, head.len() as int) =~= head);
    }
}

/// A match found in `table` is an index of `table`.
proof fn lemma_first_match_in_range(table: Seq<Template>, c: Classification)
    ensures
        first_match(table, c) matches Some(i) ==> 0 <= i < table.len(),
    decreases table.len(),
{
    if table.len() > 0 && !template_matches(table[0], c) {
        lemma_first_match_in_range(table.drop_first(), c);
    }
}

/// The chosen template opens `{` only for its slots.
proof fn lemma_chosen_template_has_only_slots(c: Classification)
    ensures
        slot_braces(chosen_template(c).text@),
{
    lemma_templates_have_only_slots();
    lemma_first_match_in_range(template_table(), c);
    if first_match(template_table(), c) is None {
        lemma_first_neutral_found(template_table(), 29);
    }
}

/// The fixed lines of a verdict hold no `{`.
proof fn lemma_verdict_lines_lack_brace(p: PlayerAspects)
    ensures
        lacks(axis_name(dominant_of(p).0), '{'),
        lacks(axis_concern(dominant_of(p).0), '{'),
        lacks(anxiety_line(classification_of(p).anxiety_high), '{'),
        lacks(contract_line(classification_of(p).contract_signed), '{'),
{
    reveal_strlit("social");
    reveal_strlit("esoteric");
    reveal_strlit("geopolitical");
    reveal_strlit("locus");
    reveal_strlit("other people's opinions");
    reveal_strlit("the collapse of ordinary reality");
    reveal_strlit("geopolitical consequences");
    reveal_strlit("the illusion of control");
    reveal_strlit("Your anxiety has requested its own broadcast channel.");
    reveal_strlit("Your anxiety remains within commercially acceptable limits.");
    reveal_strlit("The Shadow Corporation has already processed your consent.");
    reveal_strlit("No shadow contract was signed, which is suspiciously responsible.");
}

/// A verdict holds a `{` exactly when its marker does: the template slots
/// are always filled, and no other line of the verdict holds one.
pub proof fn lemma_verdict_has_no_open_brace(p: PlayerAspects)
    ensures
        lacks(verdict_text(p), '{') <==> lacks(marker_of(p), '{'),
{
    let m = marker_of(p);
    let v = verdict_text(p);
    if lacks(m, '{') {
        let c = classification_of(p);
        let (axis, value) = dominant_of(p);
        lemma_chosen_template_has_only_slots(c);
        lemma_fill_constellation(chosen_template(c).text@, m);
        lemma_fill_keyword(replaced(chosen_template(c).text@, "{constellation}"@, m), m);
        lemma_verdict_lines_lack_brace(p);
        lemma_decimal_lacks(value as nat, '{');
        reveal_strlit("ORACLE VERDICT\n\nYour dominant aura is ");
        reveal_strlit(" (");
        reveal_strlit("/100). Your main concern in 2026 is ");
        reveal_strlit(".\n\n");
        reveal_strlit("\n\n");
        reveal_strlit(" ");
        reveal_strlit("\n\nRemember ");
        reveal_strlit(": everything is temporary, especially your certainty.");
        let s0 = "ORACLE VERDICT\n\nYour dominant aura is "@;
        lemma_lacks_concat(s0, axis_name(axis), '{');
        let s1 = s0 + axis_name(axis);
        lemma_lacks_concat(s1, " ("@, '{');
        let s2 = s1 + " ("@;
        lemma_lacks_concat(s2, decimal(value as nat), '{');
        let s3 = s2 + decimal(value as nat);
        lemma_lacks_concat(s3, "/100). Your main concern in 2026 is "@, '{');
        let s4 = s3 + "/100). Your main concern in 2026 is "@;
        lemma_lacks_concat(s4, axis_concern(axis), '{');
        let s5 = s4 + axis_concern(axis);
        lemma_lacks_concat(s5, ".\n\n"@, '{');
        let s6 = s5 + ".\n\n"@;
        lemma_lacks_concat(s6, verdict_body(p), '{');
        let s7 = s6 + verdict_body(p);
        lemma_lacks_concat(s7, "\n\n"@, '{');
        let s8 = s7 + "\n\n"@;
        lemma_lacks_concat(s8, anxiety_line(c.anxiety_high), '{');
        let s9 = s8 + anxiety_line(c.anxiety_high);
        lemma_lacks_concat(s9, " "@, '{');
        let s10 = s9 + " "@;
        lemma_lacks_concat(s10, contract_line(c.contract_signed), '{');
        let s11 = s10 + contract_line(c.contract_signed);
        lemma_lacks_concat(s11, "\n\nRemember "@, '{');
        let s12 = s11 + "\n\nRemember "@;
        lemma_lacks_concat(s12, m, '{');
        let s13 = s12 + m;
        lemma_lacks_concat(s13, ": everything is temporary, especially your certainty."@, '{');
        let s14 = s13 + ": everything is temporary, especially your certainty."@;
        assert(v == s14);
    } else {
        lemma_verdict_names_marker(p);
    }
}

} // verus!
