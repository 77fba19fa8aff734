//! The cache-aside lookup component.
//!
//! A `Cache` owns a directory of one-file-per-key blobs. A single lookup is
//! modelled as a state machine, `Lookup`: the library decides, the caller
//! performs the filesystem and network actions and reports their outcomes
//! back as events. The policy proved here: probe the cache first; any probe
//! or read failure falls through to a fetch; a fetched body is written back,
//! and a write failure is swallowed — the body is served regardless; only a
//! fetch failure fails the lookup.

use vstd::prelude::*;

use crate::errors::Error;
use crate::errors::ErrorModel;
use crate::numeral::dec_str;
use crate::numeral::u32_to_string;

verus! {

/// The cache component: the directory its entries live in.
pub struct Cache {
    pub dir: String,
}

/// One in-flight lookup, between two I/O actions.
pub enum Lookup {
    /// Waiting for the existence probe of the cache file.
    AwaitProbe,
    /// The file exists; waiting for its contents.
    AwaitRead,
    /// Cache miss; waiting for the upstream response.
    AwaitFetch,
    /// Fetched; waiting for the outcome of the cache write.
    AwaitWrite(String),
    /// The lookup's result.
    Finished(Result<String, Error>),
}

/// The outcome of one I/O action, reported by the caller.
pub enum Event {
    /// Whether the cache file exists; `None` if the probe itself failed.
    Probed(Option<bool>),
    /// The cache file's contents; `None` if the read failed.
    ReadDone(Option<String>),
    /// The upstream response body, or the fetch failure.
    Fetched(Result<String, Error>),
    /// Whether the cache write succeeded.
    Written(bool),
}

/// The next I/O action the caller is asked to perform.
pub enum Action {
    /// Probe the cache file for existence.
    Probe,
    /// Read the cache file.
    Read,
    /// Fetch the resource from upstream.
    Fetch,
    /// Write this body to the cache file.
    Write(String),
    /// The lookup is over; hand this result to the requester.
    Return(Result<String, Error>),
}

/// The mathematical shape of a lookup state.
pub ghost enum StateModel {
    AwaitProbe,
    AwaitRead,
    AwaitFetch,
    AwaitWrite { body: Seq<char> },
    Finished { result: Result<Seq<char>, ErrorModel> },
}

/// The mathematical shape of an event.
pub ghost enum EventModel {
    Probed { exists: Option<bool> },
    ReadDone { contents: Option<Seq<char>> },
    Fetched { result: Result<Seq<char>, ErrorModel> },
    Written { ok: bool },
}

/// The mathematical shape of an action.
pub ghost enum ActionModel {
    Probe,
    Read,
    Fetch,
    Write { body: Seq<char> },
    Return { result: Result<Seq<char>, ErrorModel> },
}

/// The model of a lookup result.
pub open spec fn result_model(r: Result<String, Error>) -> Result<Seq<char>, ErrorModel> {
    match r {
        Ok(s) => Ok(s@),
        Err(e) => Err(e@),
    }
}

impl View for Lookup {
    type V = StateModel;

    open spec fn view(&self) -> StateModel {
        match self {
            Lookup::AwaitProbe => StateModel::AwaitProbe,
            Lookup::AwaitRead => StateModel::AwaitRead,
            Lookup::AwaitFetch => StateModel::AwaitFetch,
            Lookup::AwaitWrite(body) => StateModel::AwaitWrite { body: body@ },
            Lookup::Finished(r) => StateModel::Finished { result: result_model(*r) },
        }
    }
}

impl View for Event {
    type V = EventModel;

    open spec fn view(&self) -> EventModel {
        match self {
            Event::Probed(exists) => EventModel::Probed { exists: *exists },
            Event::ReadDone(contents) => EventModel::ReadDone {
                contents: match contents {
                    Some(s) => Some(s@),
                    None => None,
                },
            },
            Event::Fetched(r) => EventModel::Fetched { result: result_model(*r) },
            Event::Written(ok) => EventModel::Written { ok: *ok },
        }
    }
}

impl View for Action {
    type V = ActionModel;

    open spec fn view(&self) -> ActionModel {
        match self {
            Action::Probe => ActionModel::Probe,
            Action::Read => ActionModel::Read,
            Action::Fetch => ActionModel::Fetch,
            Action::Write(body) => ActionModel::Write { body: body@ },
            Action::Return(r) => ActionModel::Return { result: result_model(*r) },
        }
    }
}

/// The transition relation of a lookup. An event that does not fit the
/// state leaves it unchanged.
pub open spec fn next_model(s: StateModel, e: EventModel) -> StateModel {
    match (s, e) {
        (StateModel::AwaitProbe, EventModel::Probed { exists }) => if exists == Some(true) {
            StateModel::AwaitRead
        } else {
            StateModel::AwaitFetch
        },
        (StateModel::AwaitRead, EventModel::ReadDone { contents }) => match contents {
            Some(c) => StateModel::Finished { result: Ok(c) },
            None => StateModel::AwaitFetch,
        },
        (StateModel::AwaitFetch, EventModel::Fetched { result }) => match result {
            Ok(body) => StateModel::AwaitWrite { body },
            Err(err) => StateModel::Finished { result: Err(err) },
        },
        (StateModel::AwaitWrite { body }, EventModel::Written { ok }) => StateModel::Finished {
            result: Ok(body),
        },
        (_, _) => s,
    }
}

/// The action a state asks of the caller.
pub open spec fn action_model(s: StateModel) -> ActionModel {
    match s {
        StateModel::AwaitProbe => ActionModel::Probe,
        StateModel::AwaitRead => ActionModel::Read,
        StateModel::AwaitFetch => ActionModel::Fetch,
        StateModel::AwaitWrite { body } => ActionModel::Write { body },
        StateModel::Finished { result } => ActionModel::Return { result },
    }
}

impl Lookup {
    /// A fresh lookup, with the first action to perform.
    pub fn start() -> (r: (Lookup, Action))
        ensures
            r.0@ == StateModel::AwaitProbe,
            r.1@ == action_model(StateModel::AwaitProbe),
    {
        (Lookup::AwaitProbe, Action::Probe)
    }

    /// The action the current state asks of the caller.
    pub fn pending(&self) -> (a: Action)
        ensures
            a@ == action_model(self@),
    {
        match self {
            Lookup::AwaitProbe => Action::Probe,
            Lookup::AwaitRead => Action::Read,
            Lookup::AwaitFetch => Action::Fetch,
            Lookup::AwaitWrite(body) => Action::Write(body.clone()),
            Lookup::Finished(r) => Action::Return(
                match r {
                    Ok(s) => Ok(s.clone()),
                    Err(e) => Err(e.dup()),
                },
            ),
        }
    }

    /// Feeds the outcome of the last action into the lookup; returns the new
    /// state and the next action.
    pub fn step(self, e: Event) -> (r: (Lookup, Action))
        ensures
            r.0@ == next_model(self@, e@),
            r.1@ == action_model(next_model(self@, e@)),
    {
        let next = self.advance(e);
        let action = next.pending();
        (next, action)
    }

    fn advance(self, e: Event) -> (n: Lookup)
        ensures
            n@ == next_model(self@, e@),
    {
        match (self, e) {
            (Lookup::AwaitProbe, Event::Probed(Some(true))) => Lookup::AwaitRead,
            (Lookup::AwaitProbe, Event::Probed(_)) => Lookup::AwaitFetch,
            (Lookup::AwaitRead, Event::ReadDone(Some(contents))) => Lookup::Finished(Ok(contents)),
            (Lookup::AwaitRead, Event::ReadDone(None)) => Lookup::AwaitFetch,
            (Lookup::AwaitFetch, Event::Fetched(Ok(body))) => Lookup::AwaitWrite(body),
            (Lookup::AwaitFetch, Event::Fetched(Err(err))) => Lookup::Finished(Err(err)),
            (Lookup::AwaitWrite(body), Event::Written(_)) => Lookup::Finished(Ok(body)),
            (s, _) => s,
        }
    }
}

impl Cache {
    /// A cache over the given directory. The caller creates the directory
    /// before serving requests, as `plan_startup` directs.
    pub fn new(dir: String) -> (c: Cache)
        ensures
            c.dir == dir,
    {
        Cache { dir }
    }

    /// The path of the cache entry for `id`: the directory, a slash, the
    /// decimal id, no extension.
    pub fn file(&self, id: u32) -> (p: String)
        ensures
            p@ == self.dir@ + "/"@ + dec_str(id as nat),
    {
        let mut p = self.dir.clone();
        p.append("/");
        let n = u32_to_string(id);
        p.append(n.as_str());
        proof {
            assert(p@ =~= self.dir@ + "/"@ + dec_str(id as nat));
        }
        p
    }
}

/// Whether an event is the outcome of the action the state asked for.
pub open spec fn fits(s: StateModel, e: EventModel) -> bool {
    match (s, e) {
        (StateModel::AwaitProbe, EventModel::Probed { .. }) => true,
        (StateModel::AwaitRead, EventModel::ReadDone { .. }) => true,
        (StateModel::AwaitFetch, EventModel::Fetched { .. }) => true,
        (StateModel::AwaitWrite { .. }, EventModel::Written { .. }) => true,
        (_, _) => false,
    }
}

/// Whether each event of the trace answers the action pending at its turn.
pub open spec fn valid_trace(s: StateModel, events: Seq<EventModel>) -> bool
    decreases events.len(),
{
    events.len() == 0 || (fits(s, events[0]) && valid_trace(
        next_model(s, events[0]),
        events.drop_first(),
    ))
}

/// The state after the whole trace.
pub open spec fn run_states(s: StateModel, events: Seq<EventModel>) -> StateModel
    decreases events.len(),
{
    if events.len() == 0 {
        s
    } else {
        run_states(next_model(s, events[0]), events.drop_first())
    }
}

/// The actions the lookup asks for along the trace, one per event.
pub open spec fn run_actions(s: StateModel, events: Seq<EventModel>) -> Seq<ActionModel>
    decreases events.len(),
{
    if events.len() == 0 {
        Seq::empty()
    } else {
        seq![action_model(next_model(s, events[0]))] + run_actions(
            next_model(s, events[0]),
            events.drop_first(),
        )
    }
}

/// How many upstream fetches a sequence of actions asks for.
pub open spec fn count_fetches(actions: Seq<ActionModel>) -> nat
    decreases actions.len(),
{
    if actions.len() == 0 {
        0
    } else {
        (if actions[0] is Fetch {
            1nat
        } else {
            0nat
        }) + count_fetches(actions.drop_first())
    }
}

/// How many upstream fetches a lookup can still ask for from this state.
pub open spec fn fetch_budget(s: StateModel) -> nat {
    match s {
        StateModel::AwaitProbe => 1,
        StateModel::AwaitRead => 1,
        _ => 0,
    }
}

proof fn lemma_count_fetches_cons(a: ActionModel, rest: Seq<ActionModel>)
    ensures
        count_fetches(seq![a] + rest) == (if a is Fetch {
            1nat
        } else {
            0nat
        }) + count_fetches(rest),
{
    let whole = seq![a] + rest;
    assert(whole[0] == a);
    assert(whole.drop_first() =~= rest);
}

proof fn lemma_fetch_budget(s: StateModel, events: Seq<EventModel>)
    requires
        valid_trace(s, events),
    ensures
        count_fetches(run_actions(s, events)) <= fetch_budget(s),
    decreases events.len(),
{
    if events.len() == 0 {
    } else {
        let n = next_model(s, events[0]);
        lemma_fetch_budget(n, events.drop_first());
        lemma_count_fetches_cons(action_model(n), run_actions(n, events.drop_first()));
    }
}

/// A lookup never performs more than one upstream call, whatever the
/// filesystem and the upstream answer along the way.
pub proof fn lemma_at_most_one_fetch(events: Seq<EventModel>)
    requires
        valid_trace(StateModel::AwaitProbe, events),
    ensures
        count_fetches(run_actions(StateModel::AwaitProbe, events)) <= 1,
{
    lemma_fetch_budget(StateModel::AwaitProbe, events);
}

/// A lookup that finds the cache file and reads it serves exactly the cached
/// bytes and performs no upstream call.
pub proof fn lemma_hit_serves_cached(contents: Seq<char>)
    ensures
        ({
            let events = seq![
                EventModel::Probed { exists: Some(true) },
                EventModel::ReadDone { contents: Some(contents) },
            ];
            &&& valid_trace(StateModel::AwaitProbe, events)
            &&& run_states(StateModel::AwaitProbe, events) == (StateModel::Finished {
                result: Ok::<Seq<char>, ErrorModel>(contents),
            })
            &&& count_fetches(run_actions(StateModel::AwaitProbe, events)) == 0
        }),
{
    reveal_with_fuel(run_states, 4);
    reveal_with_fuel(run_actions, 4);
    reveal_with_fuel(valid_trace, 4);
    reveal_with_fuel(count_fetches, 4);
    let events = seq![
        EventModel::Probed { exists: Some(true) },
        EventModel::ReadDone { contents: Some(contents) },
    ];
    let s1 = next_model(StateModel::AwaitProbe, events[0]);
    assert(s1 == StateModel::AwaitRead);
    let rest = events.drop_first();
    assert(rest =~= seq![EventModel::ReadDone { contents: Some(contents) }]);
    let s2 = next_model(s1, rest[0]);
    assert(s2 == (StateModel::Finished { result: Ok::<Seq<char>, ErrorModel>(contents) }));
    assert(rest.drop_first() =~= Seq::<EventModel>::empty());
    assert(run_actions(s1, rest) =~= seq![
        ActionModel::Return { result: Ok::<Seq<char>, ErrorModel>(contents) },
    ]);
    assert(run_actions(StateModel::AwaitProbe, events) =~= seq![
        ActionModel::Read,
        ActionModel::Return { result: Ok::<Seq<char>, ErrorModel>(contents) },
    ]);
    assert(count_fetches(run_actions(StateModel::AwaitProbe, events)) == 0) by {
        lemma_count_fetches_cons(
            ActionModel::Read,
            seq![ActionModel::Return { result: Ok::<Seq<char>, ErrorModel>(contents) }],
        );
        lemma_count_fetches_cons(
            ActionModel::Return { result: Ok::<Seq<char>, ErrorModel>(contents) },
            Seq::<ActionModel>::empty(),
        );
    }
}

/// A lookup that misses the cache — the probe says the file is absent, or
/// the probe or the read itself fails — fetches exactly once, asks for the
/// body to be written back, and serves the fetched body whether or not the
/// write succeeded. In particular a failed cache write never fails the
/// request.
pub proof fn lemma_miss_serves_fetched(exists: Option<bool>, body: Seq<char>, write_ok: bool)
    requires
        exists != Some(true),
    ensures
        ({
            let events = seq![
                EventModel::Probed { exists },
                EventModel::Fetched { result: Ok::<Seq<char>, ErrorModel>(body) },
                EventModel::Written { ok: write_ok },
            ];
            &&& valid_trace(StateModel::AwaitProbe, events)
            &&& run_states(StateModel::AwaitProbe, events) == (StateModel::Finished {
                result: Ok::<Seq<char>, ErrorModel>(body),
            })
            &&& run_actions(StateModel::AwaitProbe, events) == seq![
                ActionModel::Fetch,
                ActionModel::Write { body },
                ActionModel::Return { result: Ok::<Seq<char>, ErrorModel>(body) },
            ]
            &&& count_fetches(run_actions(StateModel::AwaitProbe, events)) == 1
        }),
{
    reveal_with_fuel(run_states, 5);
    reveal_with_fuel(run_actions, 5);
    reveal_with_fuel(valid_trace, 5);
    reveal_with_fuel(count_fetches, 5);
    let events = seq![
        EventModel::Probed { exists },
        EventModel::Fetched { result: Ok::<Seq<char>, ErrorModel>(body) },
        EventModel::Written { ok: write_ok },
    ];
    let s1 = next_model(StateModel::AwaitProbe, events[0]);
    assert(s1 == StateModel::AwaitFetch);
    let rest1 = events.drop_first();
    assert(rest1 =~= seq![
        EventModel::Fetched { result: Ok::<Seq<char>, ErrorModel>(body) },
        EventModel::Written { ok: write_ok },
    ]);
    let s2 = next_model(s1, rest1[0]);
    assert(s2 == (StateModel::AwaitWrite { body }));
    let rest2 = rest1.drop_first();
    assert(rest2 =~= seq![EventModel::Written { ok: write_ok }]);
    let s3 = next_model(s2, rest2[0]);
    assert(s3 == (StateModel::Finished { result: Ok::<Seq<char>, ErrorModel>(body) }));
    assert(rest2.drop_first() =~= Seq::<EventModel>::empty());
    assert(run_actions(s2, rest2) =~= seq![
        ActionModel::Return { result: Ok::<Seq<char>, ErrorModel>(body) },
    ]);
    assert(run_actions(s1, rest1) =~= seq![
        ActionModel::Write { body },
        ActionModel::Return { result: Ok::<Seq<char>, ErrorModel>(body) },
    ]);
    assert(run_actions(StateModel::AwaitProbe, events) =~= seq![
        ActionModel::Fetch,
        ActionModel::Write { body },
        ActionModel::Return { result: Ok::<Seq<char>, ErrorModel>(body) },
    ]);
    lemma_count_fetches_cons(
        ActionModel::Fetch,
        seq![
            ActionModel::Write { body },
            ActionModel::Return { result: Ok::<Seq<char>, ErrorModel>(body) },
        ],
    );
    lemma_count_fetches_cons(
        ActionModel::Write { body },
        seq![ActionModel::Return { result: Ok::<Seq<char>, ErrorModel>(body) }],
    );
    lemma_count_fetches_cons(
        ActionModel::Return { result: Ok::<Seq<char>, ErrorModel>(body) },
        Seq::<ActionModel>::empty(),
    );
}

/// The full cache-aside story: a first lookup that misses fetches the body
/// exactly once and asks for it to be written; a second lookup whose probe
/// then sees the file and whose read returns the written bytes serves those
/// same bytes and performs no further upstream call.
pub proof fn lemma_second_lookup_hits(body: Seq<char>)
    ensures
        ({
            let miss = seq![
                EventModel::Probed { exists: Some(false) },
                EventModel::Fetched { result: Ok::<Seq<char>, ErrorModel>(body) },
                EventModel::Written { ok: true },
            ];
            let hit = seq![
                EventModel::Probed { exists: Some(true) },
                EventModel::ReadDone { contents: Some(body) },
            ];
            &&& run_states(StateModel::AwaitProbe, miss) == (StateModel::Finished {
                result: Ok::<Seq<char>, ErrorModel>(body),
            })
            &&& run_actions(StateModel::AwaitProbe, miss).contains(ActionModel::Write { body })
            &&& count_fetches(run_actions(StateModel::AwaitProbe, miss)) == 1
            &&& run_states(StateModel::AwaitProbe, hit) == (StateModel::Finished {
                result: Ok::<Seq<char>, ErrorModel>(body),
            })
            &&& count_fetches(run_actions(StateModel::AwaitProbe, hit)) == 0
        }),
{
    lemma_miss_serves_fetched(Some(false), body, true);
    lemma_hit_serves_cached(body);
    let miss = seq![
        EventModel::Probed { exists: Some(false) },
        EventModel::Fetched { result: Ok::<Seq<char>, ErrorModel>(body) },
        EventModel::Written { ok: true },
    ];
    assert(run_actions(StateModel::AwaitProbe, miss)[1] == (ActionModel::Write { body }));
}

/// What to do with the cache directory at startup.
#[derive(Debug, PartialEq, Eq, Structural)]
pub enum StartupAction {
    /// The directory is absent: create it before serving.
    CreateDir,
    /// The directory is already there: use it as it stands.
    UseExisting,
}

/// Decides the startup step from the directory's existence: the directory is
/// created exactly when it is absent, so a startup over an existing
/// directory performs no creation and cannot fail on one.
pub fn plan_startup(dir_exists: bool) -> (a: StartupAction)
    ensures
        a == (if dir_exists {
            StartupAction::UseExisting
        } else {
            StartupAction::CreateDir
        }),
{
    if dir_exists {
        StartupAction::UseExisting
    } else {
        StartupAction::CreateDir
    }
}

} // verus!
