use vstd::prelude::*;

use crate::lifecycle::{Step, is_run_plan, texts};

verus! {

/// Where the toolkit's application object comes from.
pub enum AppSource {
    /// A new application registered under this identifier.
    Id(String),
    /// An application that the caller built and handed in.
    Existing,
}

/// An application that runs a root component: it holds the application
/// object's source until it is run, which consumes it.
pub struct RelmApp {
    /// The application that is set up and run.
    pub app: AppSource,
}

impl RelmApp {
    /// Create an application registered under `app_id`.
    pub fn new(app_id: &str) -> (r: Self)
        ensures
            r.app matches AppSource::Id(id) && id@ == app_id@,
    {
        RelmApp { app: AppSource::Id(app_id.to_owned()) }
    }

    /// Create an application around one the caller already built.
    pub fn with_app() -> (r: Self)
        ensures
            r.app is Existing,
    {
        RelmApp { app: AppSource::Existing }
    }

    /// Runs the application without command-line arguments: the steps are
    /// those of `run_with_args` with an empty argument list.
    pub fn run<P>(self, payload: P) -> (r: Vec<Step<P>>)
        ensures
            is_run_plan(r@, payload, Seq::empty()),
    {
        let args: Vec<&str> = Vec::new();
        let r = self.run_with_args(payload, args.as_slice());
        assert(args@.map_values(|s: &str| s@) =~= Seq::<Seq<char>>::empty());
        r
    }

    /// Runs the application with the given command-line arguments, which
    /// reach the toolkit unchanged and in order. Consumes the application,
    /// so its component is launched exactly once.
    pub fn run_with_args<P>(self, payload: P, args: &[&str]) -> (r: Vec<Step<P>>)
        ensures
            is_run_plan(r@, payload, args@.map_values(|s: &str| s@)),
    {
        let mut owned: Vec<String> = Vec::new();
        let mut i: usize = 0;
        while i < args.len()
            invariant
                i <= args@.len(),
                texts(owned@) == args@.subrange(0, i as int).map_values(|s: &str| s@),
            decreases args@.len() - i,
        {
            let s: String = args[i].to_owned();
            proof {
                assert(texts(owned@.push(s)) =~= texts(owned@).push(s@));
                assert(args@.subrange(0, i + 1).map_values(|s: &str| s@) =~=
                    args@.subrange(0, i as int).map_values(|s: &str| s@).push(args@[i as int]@));
            }
            owned.push(s);
            i = i + 1;
        }
        proof {
            assert(args@.subrange(0, args@.len() as int) =~= args@);
        }
        let mut r: Vec<Step<P>> = Vec::new();
        r.push(Step::Launch(payload));
        r.push(Step::ConnectActivate);
        r.push(Step::RunLoop(owned));
        r
    }
}

} // verus!
