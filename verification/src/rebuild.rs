//! What the rebuild workers of both sides have in common: the legs they run in, and the reports
//! they end with.
use crate::events::SupervisorSignal;
use vstd::prelude::*;

verus! {

/// What one leg of a rebuild asks for, in steps of type `S`, and what goes into the next leg, if
/// there is one.
#[derive(Debug)]
pub struct RebuildLeg<S, T> {
    /// To be done, in order.
    pub steps: Vec<S>,
    /// The generation, by its stop flag, of which nothing is needed any more after the steps.
    pub released: Option<u64>,
    /// To be sent to the supervisor after that, in order, as far as there is room.
    pub signals: Vec<SupervisorSignal>,
    /// To be done last of all.
    pub closing: Option<S>,
    pub next: Option<T>,
}

/// A `RebuildLeg` by the contents of its lists.
#[verifier::ext_equal]
pub struct Leg<S, T> {
    pub steps: Seq<S>,
    pub released: Option<u64>,
    pub signals: Seq<SupervisorSignal>,
    pub closing: Option<S>,
    pub next: Option<T>,
}

impl<S, T> View for RebuildLeg<S, T> {
    type V = Leg<S, T>;

    open spec fn view(&self) -> Leg<S, T> {
        Leg {
            steps: self.steps@,
            released: self.released,
            signals: self.signals@,
            closing: self.closing,
            next: self.next,
        }
    }
}

/// The report of a rebuild that came to nothing.
pub open spec fn failure() -> Seq<SupervisorSignal> {
    seq![SupervisorSignal::RebuildFailed]
}

/// The report of a rebuild that worked. The old supervisor hears of the success first, so that the
/// frontend is told, and is then stopped: the new generation brings its own.
pub open spec fn success() -> Seq<SupervisorSignal> {
    seq![SupervisorSignal::RebuildSucceeded, SupervisorSignal::Stop]
}

/// A leg that ends the rebuild before anything more is done.
pub open spec fn given_up<S, T>() -> Leg<S, T> {
    Leg { steps: Seq::empty(), released: None, signals: failure(), closing: None, next: None }
}

/// The report of a rebuild that came to nothing.
pub fn failed() -> (r: Vec<SupervisorSignal>)
    ensures
        r@ == failure(),
{
    vec![SupervisorSignal::RebuildFailed]
}

/// The report of a rebuild that worked.
pub fn succeeded() -> (r: Vec<SupervisorSignal>)
    ensures
        r@ == success(),
{
    vec![SupervisorSignal::RebuildSucceeded, SupervisorSignal::Stop]
}

/// A leg that ends the rebuild before anything more is done.
pub(crate) fn gave_up<S, T>() -> (leg: RebuildLeg<S, T>)
    ensures
        leg@ == given_up::<S, T>(),
{
    RebuildLeg { steps: Vec::new(), released: None, signals: failed(), closing: None, next: None }
}

/// A rebuild that came to nothing says so once. One that worked says so first and then has the old
/// supervisor stopped, in this order.
pub proof fn law_reports()
    ensures
        failure() == seq![SupervisorSignal::RebuildFailed],
        success() == seq![SupervisorSignal::RebuildSucceeded, SupervisorSignal::Stop],
{
}

/// A leg that gives up asks for nothing but the report of the failure, and leads nowhere.
pub proof fn law_giving_up_only_reports<S, T>()
    ensures
        given_up::<S, T>().steps == Seq::<S>::empty(),
        given_up::<S, T>().released is None,
        given_up::<S, T>().signals == seq![SupervisorSignal::RebuildFailed],
        given_up::<S, T>().closing is None,
        given_up::<S, T>().next is None,
{
}

} // verus!
