use vstd::prelude::*;

verus! {

/// One thing the driver does when an application is run.
pub enum Step<P> {
    /// Launch the root component with these init parameters, detach its
    /// controller and keep its root widget as the application's window.
    Launch(P),
    /// Register the activation handler, whose work `on_activate` gives.
    ConnectActivate,
    /// Hand control to the toolkit's event loop with these command-line
    /// arguments; the driver returns once the application is closed.
    RunLoop(Vec<String>),
}

/// What the activation handler does with the root window.
#[derive(PartialEq, Eq, Structural, Clone, Copy, Debug)]
pub enum WindowOp {
    /// Add the window to the application.
    AddToApp,
    /// Make the window visible.
    Show,
}

/// The text of each argument.
pub open spec fn texts(args: Seq<String>) -> Seq<Seq<char>> {
    args.map_values(|s: String| s@)
}

/// The steps of a run, in order: launch the component with `payload`,
/// register the activation handler, enter the event loop with `args`.
pub open spec fn is_run_plan<P>(plan: Seq<Step<P>>, payload: P, args: Seq<Seq<char>>) -> bool {
    &&& plan.len() == 3
    &&& plan[0] == Step::Launch(payload)
    &&& plan[1] is ConnectActivate
    &&& plan[2] matches Step::RunLoop(a) && texts(a@) == args
}

/// What each activation does: add the window to the application, then show it.
pub open spec fn activation_ops() -> Seq<WindowOp> {
    seq![WindowOp::AddToApp, WindowOp::Show]
}

/// A run launches its component exactly once, and does so before the
/// activation handler is registered, which in turn comes before the event
/// loop is entered; the loop is entered once, as the last step.
pub proof fn lemma_run_launches_once<P>(plan: Seq<Step<P>>, payload: P, args: Seq<Seq<char>>)
    requires
        is_run_plan(plan, payload, args),
    ensures
        forall|i: int| 0 <= i < plan.len() && (#[trigger] plan[i]) is Launch ==> i == 0,
        forall|i: int| 0 <= i < plan.len() && (#[trigger] plan[i]) is RunLoop ==> i == plan.len() - 1,
        plan[0] is Launch,
        plan[1] is ConnectActivate,
        plan[plan.len() - 1] is RunLoop,
{
}

/// Each activation leaves the window shown: showing is the last thing the
/// handler does, and the window is added to the application before that.
pub proof fn lemma_activation_shows_window()
    ensures
        activation_ops().last() == WindowOp::Show,
        exists|i: int| 0 <= i < activation_ops().len() - 1 && #[trigger] activation_ops()[i] == WindowOp::AddToApp,
{
    assert(activation_ops()[0] == WindowOp::AddToApp);
}

/// The window operations to perform, in order, each time the application is
/// activated.
pub fn on_activate() -> (r: Vec<WindowOp>)
    ensures
        r@ == activation_ops(),
{
    let mut r: Vec<WindowOp> = Vec::new();
    r.push(WindowOp::AddToApp);
    r.push(WindowOp::Show);
    proof {
        assert(r@ =~= activation_ops());
    }
    r
}

} // verus!
