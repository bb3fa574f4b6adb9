use vstd::prelude::*;

verus! {

/// One of the two ends of a portal pair.
#[derive(Debug, Clone, Copy, PartialEq, Eq, Structural)]
pub enum PairSide {
    A,
    B,
}

/// The end at the other side of a pair: what comes out of `s` goes in at it.
pub open spec fn other_side(s: PairSide) -> PairSide {
    match s {
        PairSide::A => PairSide::B,
        PairSide::B => PairSide::A,
    }
}

/// The side a portal at side `s` is linked to.
pub fn partner_side(s: PairSide) -> (r: PairSide)
    ensures
        r == other_side(s),
{
    match s {
        PairSide::A => PairSide::B,
        PairSide::B => PairSide::A,
    }
}

/// Two portals linked to each other: whatever enters one leaves by the other.
///
/// The link is the pair itself, so every portal in a pair always has a
/// partner, and the partner of its partner is the portal itself. A pair is
/// not cloned: a copy of a portal carries no link to a partner.
#[derive(Debug)]
pub struct PortalPair<P> {
    pub portal_a: P,
    pub portal_b: P,
}

impl<P> PortalPair<P> {
    /// The portal at side `s`.
    pub open spec fn at(&self, s: PairSide) -> P {
        match s {
            PairSide::A => self.portal_a,
            PairSide::B => self.portal_b,
        }
    }

    /// Links `portal_a` and `portal_b`.
    pub fn new(portal_a: P, portal_b: P) -> (r: Self)
        ensures
            r.portal_a == portal_a,
            r.portal_b == portal_b,
    {
        PortalPair { portal_a, portal_b }
    }

    /// The portal at side `s`.
    pub fn portal(&self, s: PairSide) -> (r: &P)
        ensures
            *r == self.at(s),
    {
        match s {
            PairSide::A => &self.portal_a,
            PairSide::B => &self.portal_b,
        }
    }

    /// The portal linked to the one at side `s`.
    pub fn partner(&self, s: PairSide) -> (r: &P)
        ensures
            *r == self.at(other_side(s)),
    {
        match s {
            PairSide::A => &self.portal_b,
            PairSide::B => &self.portal_a,
        }
    }
}

/// Linking is symmetric and never links a portal to itself: the partner of
/// the partner of a side is that side, and no side is its own partner.
pub proof fn lemma_partner_involution(s: PairSide)
    ensures
        other_side(other_side(s)) == s,
        other_side(s) != s,
{
}

/// In any pair, the partner of the partner of a portal is that portal.
pub proof fn lemma_partner_of_partner<P>(pair: PortalPair<P>, s: PairSide)
    ensures
        pair.at(other_side(other_side(s))) == pair.at(s),
{
}

/// `probe`, asked whether a move through the portal at side `s` of `pair`
/// (leaving by its partner) teleports, may answer `out`.
pub open spec fn probe_gave<P, R, F: Fn(&P, &P, PairSide) -> Option<R>>(
    probe: F,
    pair: PortalPair<P>,
    s: PairSide,
    out: Option<R>,
) -> bool {
    call_ensures(probe, (&pair.at(s), &pair.at(other_side(s)), s), out)
}

/// Every probe that comes before side `s` of pair `i` answered "no teleport":
/// both sides of each earlier pair, and side `A` of pair `i` when `s` is `B`.
pub open spec fn misses_before<P, R, F: Fn(&P, &P, PairSide) -> Option<R>>(
    probe: F,
    pairs: Seq<PortalPair<P>>,
    i: int,
    s: PairSide,
) -> bool {
    &&& forall|j: int|
        0 <= j < i ==> #[trigger] probe_gave(probe, pairs[j], PairSide::A, None) && probe_gave(
            probe,
            pairs[j],
            PairSide::B,
            None,
        )
    &&& s == PairSide::B ==> probe_gave(probe, pairs[i], PairSide::A, None)
}

/// Looks for the first portal that a move (of the camera, or of a ray)
/// passes through.
///
/// The pairs are tried in order, and within a pair first from side `A`
/// (leaving by `B`) and then from side `B` (leaving by `A`). `probe` decides
/// for one entry portal and its exit whether the move goes through and where
/// it ends; the first answer that is not `None` is returned, and `None` comes
/// back only when every probe said no.
pub fn first_portal_passage<P, R>(
    pairs: &Vec<PortalPair<P>>,
    probe: impl Fn(&P, &P, PairSide) -> Option<R>,
) -> (r: Option<R>)
    requires
        forall|a: &P, b: &P, s: PairSide| call_requires(probe, (a, b, s)),
    ensures
        r is None ==> forall|j: int|
            0 <= j < pairs@.len() ==> #[trigger] probe_gave(probe, pairs@[j], PairSide::A, None)
                && probe_gave(probe, pairs@[j], PairSide::B, None),
        r matches Some(v) ==> exists|i: int, s: PairSide|
            0 <= i < pairs@.len() && #[trigger] probe_gave(probe, pairs@[i], s, Some(v))
                && misses_before(probe, pairs@, i, s),
{
    let n = pairs.len();
    let mut i: usize = 0;
    while i < n
        invariant
            n == pairs@.len(),
            i <= n,
            forall|a: &P, b: &P, s: PairSide| call_requires(probe, (a, b, s)),
            forall|j: int|
                0 <= j < i ==> #[trigger] probe_gave(probe, pairs@[j], PairSide::A, None)
                    && probe_gave(probe, pairs@[j], PairSide::B, None),
        decreases n - i,
    {
        let pair = &pairs[i];
        let from_a = probe(&pair.portal_a, &pair.portal_b, PairSide::A);
        match from_a {
            Some(v) => {
                assert(probe_gave(probe, pairs@[i as int], PairSide::A, Some(v)));
                assert(misses_before(probe, pairs@, i as int, PairSide::A));
                return Some(v);
            },
            None => {},
        }
        assert(probe_gave(probe, pairs@[i as int], PairSide::A, None));
        let from_b = probe(&pair.portal_b, &pair.portal_a, PairSide::B);
        match from_b {
            Some(v) => {
                assert(probe_gave(probe, pairs@[i as int], PairSide::B, Some(v)));
                assert(misses_before(probe, pairs@, i as int, PairSide::B));
                return Some(v);
            },
            None => {},
        }
        assert(probe_gave(probe, pairs@[i as int], PairSide::B, None));
        assert forall|j: int| 0 <= j < i + 1 implies #[trigger] probe_gave(
            probe,
            pairs@[j],
            PairSide::A,
            None,
        ) && probe_gave(probe, pairs@[j], PairSide::B, None) by {
            if j < i {
                assert(probe_gave(probe, pairs@[j], PairSide::A, None));
            }
        }
        i = i + 1;
    }
    None
}

} // verus!
