//! Ownership of the one timer that both kinds of controller run on.
//!
//! A single-channel and a dual-channel controller would both program timer 0
//! of the same PWM unit, and the hardware knows nothing of shared ownership:
//! a second controller would silently spoil the output of the first. So at
//! most one controller may ever exist. The registry records which kind took
//! the timer, and there is no way to give it back.

use vstd::prelude::*;

use crate::error::MotorError;

verus! {

/// The two kinds of controller that compete for the timer.
#[derive(Clone, Copy, Debug, PartialEq, Eq, Structural)]
pub enum ClaimKind {
    /// One motor on output A.
    Single,
    /// Two motors on outputs A and B.
    Dual,
}

/// Whether a claim succeeds on a timer held by `holder`: only a free timer
/// can be claimed.
pub open spec fn claim_outcome(holder: Option<ClaimKind>) -> Result<(), MotorError> {
    if holder is None {
        Ok(())
    } else {
        Err(MotorError::AlreadyClaimed)
    }
}

/// Who holds the timer after a claim for `kind`: a free timer goes to the
/// claimant, a held one stays where it is.
pub open spec fn holder_after_claim(holder: Option<ClaimKind>, kind: ClaimKind) -> Option<
    ClaimKind,
> {
    if holder is None {
        Some(kind)
    } else {
        holder
    }
}

/// Who holds the timer after the claims in `kinds`, made in order.
pub open spec fn holder_after_claims(holder: Option<ClaimKind>, kinds: Seq<ClaimKind>) -> Option<
    ClaimKind,
>
    decreases kinds.len(),
{
    if kinds.len() == 0 {
        holder
    } else {
        holder_after_claims(holder_after_claim(holder, kinds[0]), kinds.drop_first())
    }
}

/// Records whether the timer has been claimed, and by which kind.
///
/// The registry is viewed as its holder. It knows one holder at most, so a
/// single and a dual claim can never both be in force.
#[derive(Debug)]
pub struct ClaimRegistry {
    holder: Option<ClaimKind>,
}

impl View for ClaimRegistry {
    type V = Option<ClaimKind>;

    closed spec fn view(&self) -> Option<ClaimKind> {
        self.holder
    }
}

impl ClaimRegistry {
    /// Whether the timer has been claimed by a controller of `kind`.
    pub open spec fn is_claimed(&self, kind: ClaimKind) -> bool {
        self@ == Some(kind)
    }

    /// A registry in which nothing has been claimed yet.
    pub fn new() -> (registry: ClaimRegistry)
        ensures
            registry@ is None,
    {
        ClaimRegistry { holder: None }
    }

    /// The kind of controller that holds the timer, if any does.
    pub fn holder(&self) -> (holder: Option<ClaimKind>)
        ensures
            holder == self@,
    {
        self.holder
    }

    /// Takes the timer for a controller of `kind`.
    ///
    /// Succeeds exactly when the timer is free. A claim on a timer that is
    /// already held, by the same kind or by the other, fails with
    /// `AlreadyClaimed` and changes nothing.
    pub fn claim(&mut self, kind: ClaimKind) -> (result: Result<(), MotorError>)
        ensures
            result == claim_outcome(old(self)@),
            final(self)@ == holder_after_claim(old(self)@, kind),
    {
        match self.holder {
            Some(_) => Err(MotorError::AlreadyClaimed),
            None => {
                self.holder = Some(kind);
                Ok(())
            },
        }
    }
}

/// The first claim on a free timer succeeds, and every claim after it
/// fails, whichever kinds the two claims are for.
pub proof fn lemma_first_claim_wins(first: ClaimKind, later: ClaimKind)
    ensures
        claim_outcome(None) == Ok::<(), MotorError>(()),
        holder_after_claim(None, first) == Some(first),
        claim_outcome(holder_after_claim(None, first)) == Err::<(), MotorError>(
            MotorError::AlreadyClaimed,
        ),
        holder_after_claim(holder_after_claim(None, first), later) == Some(first),
{
}

/// A claim is for good: once the timer is held, no sequence of further
/// claims changes the holder, and each of them fails.
pub proof fn lemma_claim_is_permanent(holder: Option<ClaimKind>, kinds: Seq<ClaimKind>)
    requires
        holder is Some,
    ensures
        holder_after_claims(holder, kinds) == holder,
        claim_outcome(holder_after_claims(holder, kinds)) == Err::<(), MotorError>(
            MotorError::AlreadyClaimed,
        ),
    decreases kinds.len(),
{
    if kinds.len() > 0 {
        lemma_claim_is_permanent(holder, kinds.drop_first());
    }
}

/// On a free timer the first of a sequence of claims decides the holder.
pub proof fn lemma_first_of_many_wins(kinds: Seq<ClaimKind>)
    requires
        kinds.len() > 0,
    ensures
        holder_after_claims(None, kinds) == Some(kinds[0]),
{
    lemma_claim_is_permanent(Some(kinds[0]), kinds.drop_first());
}

} // verus!
