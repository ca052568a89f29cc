//! Classification rules: the four mask event kinds, each paired with the
//! regular expression that recognizes its addresses, and the linear scan that
//! classifies an inbound address against a configured rule list.
use vstd::prelude::*;

verus! {

/// A discrete gesture transition reported by the remote avatar. Pose events
/// are recorded for history only; grab events also advance the displayed
/// counter.
#[derive(Clone, Copy, Debug, PartialEq, Eq, Structural)]
pub enum MaskEventKind {
    UpPosed,
    DownPosed,
    UpGrabbed,
    DownGrabbed,
}

impl MaskEventKind {
    /// The ordinal persisted to storage for this kind. It is the join key of
    /// the event log: once records exist it must never be reassigned.
    pub open spec fn discriminant_spec(self) -> i32 {
        match self {
            MaskEventKind::UpPosed => 0,
            MaskEventKind::DownPosed => 1,
            MaskEventKind::UpGrabbed => 2,
            MaskEventKind::DownGrabbed => 3,
        }
    }

    /// The storage ordinal of this kind.
    pub fn discriminant(&self) -> (r: i32)
        ensures
            r == self.discriminant_spec(),
    {
        match self {
            MaskEventKind::UpPosed => 0,
            MaskEventKind::DownPosed => 1,
            MaskEventKind::UpGrabbed => 2,
            MaskEventKind::DownGrabbed => 3,
        }
    }

    /// Whether events of this kind advance the displayed counter.
    pub open spec fn is_grab(self) -> bool {
        self == MaskEventKind::UpGrabbed || self == MaskEventKind::DownGrabbed
    }

    /// Whether events of this kind advance the displayed counter.
    pub fn counts_toward_cycle(&self) -> (r: bool)
        ensures
            r == self.is_grab(),
    {
        match self {
            MaskEventKind::UpGrabbed => true,
            MaskEventKind::DownGrabbed => true,
            _ => false,
        }
    }
}

/// A classification rule: an event kind together with the regular expression
/// that recognizes the addresses reporting it. Rules are configuration,
/// immutable for the life of the process.
#[derive(Clone, Debug, PartialEq, Eq)]
pub struct Rule {
    pub kind: MaskEventKind,
    pub pattern: String,
}

/// What regular-expression matching decides for a pattern and an address: a
/// function of the two strings alone. An address never matches a pattern that
/// does not compile.
pub uninterp spec fn pattern_match(pattern: Seq<char>, addr: Seq<char>) -> bool;

/// Relies on `regex::Regex::new` and `regex::Regex::find`: whether the
/// compiled pattern finds a match anywhere in the address. Compilation and
/// matching read nothing but the two strings, so the outcome is a function of
/// them alone; a pattern that does not compile matches nothing. Neither call
/// panics.
#[verifier::external_body]
fn pattern_finds(pattern: &String, addr: &String) -> (r: bool)
    ensures
        r == pattern_match(pattern@, addr@),
{
    match regex::Regex::new(pattern) {
        Ok(re) => re.find(addr).is_some(),
        Err(_) => false,
    }
}

/// The kinds of the rules whose pattern matches the address, in rule order.
/// Rules are not mutually exclusive: every match counts, not only the first.
pub open spec fn matching_kinds(rules: Seq<Rule>, addr: Seq<char>) -> Seq<MaskEventKind>
    decreases rules.len(),
{
    if rules.len() == 0 {
        Seq::empty()
    } else {
        let rest = matching_kinds(rules.drop_last(), addr);
        if pattern_match(rules.last().pattern@, addr) {
            rest.push(rules.last().kind)
        } else {
            rest
        }
    }
}

/// Tests the address against every rule, in configured order, and returns the
/// kinds of all the rules that match.
pub fn classify(rules: &Vec<Rule>, addr: &String) -> (r: Vec<MaskEventKind>)
    ensures
        r@ == matching_kinds(rules@, addr@),
{
    let mut kinds: Vec<MaskEventKind> = Vec::new();
    let mut i: usize = 0;
    while i < rules.len()
        invariant
            i <= rules.len(),
            kinds@ == matching_kinds(rules@.take(i as int), addr@),
        decreases rules.len() - i,
    {
        if pattern_finds(&rules[i].pattern, addr) {
            kinds.push(rules[i].kind);
        }
        proof {
            assert(rules@.take(i + 1).drop_last() =~= rules@.take(i as int));
            assert(rules@.take(i + 1).last() == rules@[i as int]);
        }
        i = i + 1;
    }
    proof {
        assert(rules@.take(rules@.len() as int) =~= rules@);
    }
    kinds
}

} // verus!
