//! Accounts that are brought into being on demand. The program decides what
//! has to happen; the transfers and nested calls themselves are made by its
//! caller, one step at a time.
use vstd::prelude::*;
use crate::context::Context;
use crate::cpi::{NestedCall, NestedCallView, Transfer};
use crate::errors::ErrorCode;

verus! {

/// How far the initialization of an account has come.
#[derive(Clone, Copy, Debug, PartialEq, Eq, Structural)]
pub enum InitStage {
    /// Nothing has been done yet.
    Start,
    /// The account's balance has been brought up to its minimum.
    Funded,
}

/// What one step of an initialization asks for.
#[derive(Clone, Debug, PartialEq, Eq)]
pub enum InitStep {
    /// Nothing: the account is initialized.
    Done,
    /// Move the balance, then go on from [`InitStage::Funded`].
    Fund(Transfer),
    /// Make the nested call that creates the account; the account is
    /// initialized when it returns.
    Invoke(NestedCall),
}

/// A step as plain values.
pub enum InitStepView {
    Done,
    Fund(Transfer),
    Invoke(NestedCallView),
}

impl View for InitStep {
    type V = InitStepView;

    open spec fn view(&self) -> InitStepView {
        match self {
            InitStep::Done => InitStepView::Done,
            InitStep::Fund(transfer) => InitStepView::Fund(*transfer),
            InitStep::Invoke(call) => InitStepView::Invoke(call@),
        }
    }
}

impl InitStep {
    /// The stage from which the initialization goes on once the step has
    /// been carried out; `None` where the account is then initialized.
    pub open spec fn next_stage_spec(step: InitStepView) -> Option<InitStage> {
        match step {
            InitStepView::Done => None,
            InitStepView::Fund(_) => Some(InitStage::Funded),
            InitStepView::Invoke(_) => None,
        }
    }

    /// The stage from which the initialization goes on once the step has
    /// been carried out; `None` where the account is then initialized.
    pub fn next_stage(&self) -> (next: Option<InitStage>)
        ensures
            next == Self::next_stage_spec(self@),
    {
        match self {
            InitStep::Done => None,
            InitStep::Fund(_) => Some(InitStage::Funded),
            InitStep::Invoke(_) => None,
        }
    }
}

impl InitStep {
    /// How the initialization goes on once the step has been tried: a step
    /// that failed ends it with the failure unchanged; after a step that
    /// was carried out it goes on from the next stage, or is complete.
    pub open spec fn after_spec(step: InitStepView, outcome: Result<(), ErrorCode>) -> Result<
        Option<InitStage>,
        ErrorCode,
    > {
        match outcome {
            Err(e) => Err(e),
            Ok(()) => Ok(Self::next_stage_spec(step)),
        }
    }

    /// Decides how the initialization goes on once the step has been tried
    /// with `outcome`: the failure that ends it, the stage to go on from, or
    /// `None` where the account is initialized.
    pub fn after(&self, outcome: Result<(), ErrorCode>) -> (next: Result<
        Option<InitStage>,
        ErrorCode,
    >)
        ensures
            next == Self::after_spec(self@, outcome),
    {
        match outcome {
            Err(e) => Err(e),
            Ok(()) => Ok(self.next_stage()),
        }
    }
}

/// A step or the failure that ends the initialization, as plain values.
pub open spec fn step_view(step: Result<InitStep, ErrorCode>) -> Result<InitStepView, ErrorCode> {
    match step {
        Ok(step) => Ok(step@),
        Err(e) => Err(e),
    }
}

/// An account whose address can be fixed by seeds before it is initialized.
pub trait CanInitSeeds<A> {
    /// Whether `set` is what fixing the seeds yields.
    spec fn seeds_initialized(&self, arg: &A, ctx: &Context, set: Result<(), ErrorCode>) -> bool;

    /// Fixes the seeds of the account's address.
    fn init_seeds(&self, arg: &A, ctx: &Context) -> (set: Result<(), ErrorCode>)
        ensures
            self.seeds_initialized(arg, ctx, set),
    ;
}

/// An account that can be initialized with the argument `A`.
pub trait CanInitAccount<A> {
    /// Whether `step` is what the initialization asks for at `stage`.
    spec fn initializes(
        &self,
        if_needed: bool,
        stage: InitStage,
        arg: &A,
        seeds_given: bool,
        ctx: &Context,
        step: Result<InitStepView, ErrorCode>,
    ) -> bool;

    /// Decides the next step of the account's initialization. With
    /// `IF_NEEDED` an account that is initialized already is only validated.
    fn init_account<const IF_NEEDED: bool>(
        &self,
        stage: InitStage,
        arg: A,
        account_seeds: Option<&[&[u8]]>,
        ctx: &Context,
    ) -> (step: Result<InitStep, ErrorCode>)
        ensures
            self.initializes(IF_NEEDED, stage, &arg, account_seeds is Some, ctx, step_view(step)),
    ;
}

} // verus!
