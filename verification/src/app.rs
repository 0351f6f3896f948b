use vstd::prelude::*;
use vstd::string::StringExecFns;

use crate::action::{Action, Direction};
use crate::config::Config;
use crate::event::{AppEvent, KeyCode};

verus! {

/// The application state the run loop owns: an item list with a bounded
/// selection, the counter the key bindings adjust, a tick counter, and the
/// termination flag. The state machine mutates it in place, one action per
/// loop iteration; the render callback only reads it.
pub struct App {
    pub config: Config,
    pub items: Vec<String>,
    pub selected: usize,
    pub counter: i64,
    pub tick_count: u64,
    pub should_quit: bool,
}

impl App {
    /// The selection always stays inside the list: a valid index on a
    /// non-empty list, pinned to zero on an empty one.
    pub open spec fn wf(self) -> bool {
        if self.items@.len() == 0 {
            self.selected == 0
        } else {
            self.selected < self.items@.len()
        }
    }

    /// The fixed key bindings of the list variant: `q` quits, Up and `k`
    /// navigate up, Down and `j` navigate down, Enter selects, and any
    /// other key is a no-op tick rather than an error.
    pub open spec fn action_of_key(k: KeyCode) -> Action {
        match k {
            KeyCode::Char(c) => if c == 'q' {
                Action::Quit
            } else if c == 'k' {
                Action::Navigate(Direction::Up)
            } else if c == 'j' {
                Action::Navigate(Direction::Down)
            } else {
                Action::Tick
            },
            KeyCode::Up => Action::Navigate(Direction::Up),
            KeyCode::Down => Action::Navigate(Direction::Down),
            KeyCode::Enter => Action::Select,
            KeyCode::Other => Action::Tick,
        }
    }

    /// The action one abstract event gives rise to: a timer tick counts as
    /// a tick, a key press goes through the key bindings, and a resize only
    /// forces a redraw.
    pub open spec fn action_of_event(e: AppEvent) -> Action {
        match e {
            AppEvent::Tick => Action::Tick,
            AppEvent::Key(k) => Self::action_of_key(k),
            AppEvent::Resize(_, _) => Action::Render,
        }
    }

    /// What applying one action does to the state. Every action is total:
    /// the selection saturates at both ends of the list, the counters
    /// saturate at their bounds, and `Select`, `Render` and `Error` leave
    /// the domain state untouched (their side effects — a log line, a
    /// redraw — happen outside this crate).
    pub open spec fn apply_spec(self, a: Action) -> App {
        match a {
            Action::Quit => App { should_quit: true, ..self },
            Action::Navigate(Direction::Up) => App {
                selected: if self.selected > 0 { (self.selected - 1) as usize } else { 0 },
                ..self
            },
            Action::Navigate(Direction::Down) => App {
                selected: if self.selected + 1 < self.items@.len() {
                    (self.selected + 1) as usize
                } else {
                    self.selected
                },
                ..self
            },
            Action::Increment => App {
                counter: if self.counter < i64::MAX { (self.counter + 1) as i64 } else { self.counter },
                ..self
            },
            Action::Decrement => App {
                counter: if self.counter > i64::MIN { (self.counter - 1) as i64 } else { self.counter },
                ..self
            },
            Action::Tick => App {
                tick_count: if self.tick_count < u64::MAX {
                    (self.tick_count + 1) as u64
                } else {
                    self.tick_count
                },
                ..self
            },
            Action::Render => self,
            Action::Select => self,
            Action::Error(_) => self,
        }
    }

    /// The state after one full loop iteration on one event: derive the
    /// action, then apply it.
    pub open spec fn step_spec(self, e: AppEvent) -> App {
        self.apply_spec(Self::action_of_event(e))
    }

    /// The initial state: five items, selection at the start, both counters
    /// at zero, not terminated.
    pub fn new(config: Config) -> (s: App)
        ensures
            s.config == config,
            s.items@.len() == 5,
            s.items@[0]@ == "Item 1"@,
            s.items@[1]@ == "Item 2"@,
            s.items@[2]@ == "Item 3"@,
            s.items@[3]@ == "Item 4"@,
            s.items@[4]@ == "Item 5"@,
            s.selected == 0,
            s.counter == 0,
            s.tick_count == 0,
            !s.should_quit,
            s.wf(),
    {
        let mut items: Vec<String> = Vec::new();
        items.push(String::from_str("Item 1"));
        items.push(String::from_str("Item 2"));
        items.push(String::from_str("Item 3"));
        items.push(String::from_str("Item 4"));
        items.push(String::from_str("Item 5"));
        App { config, items, selected: 0, counter: 0, tick_count: 0, should_quit: false }
    }

    /// Map one key press to its action, per the fixed key bindings.
    pub fn handle_key(&self, key: KeyCode) -> (a: Action)
        ensures
            a == Self::action_of_key(key),
    {
        match key {
            KeyCode::Char(c) => if c == 'q' {
                Action::Quit
            } else if c == 'k' {
                Action::Navigate(Direction::Up)
            } else if c == 'j' {
                Action::Navigate(Direction::Down)
            } else {
                Action::Tick
            },
            KeyCode::Up => Action::Navigate(Direction::Up),
            KeyCode::Down => Action::Navigate(Direction::Down),
            KeyCode::Enter => Action::Select,
            KeyCode::Other => Action::Tick,
        }
    }

    /// Derive the action for one abstract event: pure, total, and free of
    /// side effects.
    pub fn derive_action(&self, event: AppEvent) -> (a: Action)
        ensures
            a == Self::action_of_event(event),
    {
        match event {
            AppEvent::Tick => Action::Tick,
            AppEvent::Key(k) => self.handle_key(k),
            AppEvent::Resize(_, _) => Action::Render,
        }
    }

    /// Apply one action to the state in place. Total over every (state,
    /// action) pair, never panics, and preserves well-formedness.
    pub fn update(&mut self, action: Action)
        ensures
            *final(self) == old(self).apply_spec(action),
            old(self).wf() ==> final(self).wf(),
    {
        match action {
            Action::Quit => {
                self.should_quit = true;
            },
            Action::Navigate(Direction::Up) => {
                if self.selected > 0 {
                    self.selected = self.selected - 1;
                }
            },
            Action::Navigate(Direction::Down) => {
                let limit: usize = if self.items.len() > 0 { self.items.len() - 1 } else { 0 };
                if self.selected < limit {
                    self.selected = self.selected + 1;
                }
            },
            Action::Increment => {
                if self.counter < i64::MAX {
                    self.counter = self.counter + 1;
                }
            },
            Action::Decrement => {
                if self.counter > i64::MIN {
                    self.counter = self.counter - 1;
                }
            },
            Action::Tick => {
                if self.tick_count < u64::MAX {
                    self.tick_count = self.tick_count + 1;
                }
            },
            Action::Render => {},
            Action::Select => {},
            Action::Error(_) => {},
        }
    }

    /// The item list, read-only.
    pub fn items(&self) -> (r: &[String])
        ensures
            r@ == self.items@,
    {
        self.items.as_slice()
    }

    /// The current selection index.
    pub fn selected(&self) -> (r: usize)
        ensures
            r == self.selected,
    {
        self.selected
    }

    /// The configuration the state was created with.
    pub fn config(&self) -> (r: &Config)
        ensures
            *r == self.config,
    {
        &self.config
    }
}

/// The counter variant's key bindings, used by the minimal run loop: `q`
/// quits, Up and `k` increment, Down and `j` decrement, and any other key
/// produces no action at all — the loop goes straight back to waiting.
pub open spec fn counter_action_of_key(k: KeyCode) -> Option<Action> {
    match k {
        KeyCode::Char(c) => if c == 'q' {
            Some(Action::Quit)
        } else if c == 'k' {
            Some(Action::Increment)
        } else if c == 'j' {
            Some(Action::Decrement)
        } else {
            None
        },
        KeyCode::Up => Some(Action::Increment),
        KeyCode::Down => Some(Action::Decrement),
        _ => None,
    }
}

/// Map one key press to the counter variant's action, or `None` for a key
/// without a binding.
pub fn counter_key_action(key: KeyCode) -> (r: Option<Action>)
    ensures
        r == counter_action_of_key(key),
{
    match key {
        KeyCode::Char(c) => if c == 'q' {
            Some(Action::Quit)
        } else if c == 'k' {
            Some(Action::Increment)
        } else if c == 'j' {
            Some(Action::Decrement)
        } else {
            None
        },
        KeyCode::Up => Some(Action::Increment),
        KeyCode::Down => Some(Action::Decrement),
        KeyCode::Enter => None,
        KeyCode::Other => None,
    }
}

/// The state after the loop has processed a whole script of events, one
/// iteration per event.
pub open spec fn state_after(s: App, events: Seq<AppEvent>) -> App
    decreases events.len(),
{
    if events.len() == 0 {
        s
    } else {
        state_after(s.step_spec(events[0]), events.skip(1))
    }
}

/// How many events one run of the loop consumes — equally, how many frames
/// it draws and how many times it waits, one of each per iteration: the
/// loop stops at the end of the iteration whose action set the termination
/// flag, or when the script runs out.
pub open spec fn consumed_count(s: App, events: Seq<AppEvent>) -> nat
    decreases events.len(),
{
    if events.len() == 0 {
        0
    } else if s.step_spec(events[0]).should_quit {
        1
    } else {
        1 + consumed_count(s.step_spec(events[0]), events.skip(1))
    }
}

/// Applying any single action preserves well-formedness and never changes
/// the item list or the configuration.
pub proof fn lemma_apply_preserves_wf(s: App, a: Action)
    requires
        s.wf(),
    ensures
        s.apply_spec(a).wf(),
        s.apply_spec(a).items == s.items,
        s.apply_spec(a).config == s.config,
{
}

/// The two-state shape of the machine: the terminated state is terminal —
/// once the flag is set, no action clears it — and the only transition
/// into it is the `Quit` action; every other action leaves a running state
/// running.
pub proof fn lemma_termination_transitions(s: App, a: Action)
    ensures
        s.apply_spec(a).should_quit <==> (s.should_quit || a == Action::Quit),
{
}

/// The state a sequence of navigation moves leads to.
pub open spec fn apply_navigations(s: App, dirs: Seq<Direction>) -> App
    decreases dirs.len(),
{
    if dirs.len() == 0 {
        s
    } else {
        apply_navigations(s.apply_spec(Action::Navigate(dirs[0])), dirs.skip(1))
    }
}

/// Under any sequence of navigation moves the selection stays within
/// `[0, items.len() - 1]` on a non-empty list and pinned to zero on an
/// empty one — it saturates at both ends, never wraps, and never leaves
/// the list, whose contents the moves do not touch.
pub proof fn lemma_navigation_stays_in_bounds(s: App, dirs: Seq<Direction>)
    requires
        s.wf(),
    ensures
        apply_navigations(s, dirs).wf(),
        apply_navigations(s, dirs).items == s.items,
    decreases dirs.len(),
{
    if dirs.len() > 0 {
        lemma_apply_preserves_wf(s, Action::Navigate(dirs[0]));
        lemma_navigation_stays_in_bounds(s.apply_spec(Action::Navigate(dirs[0])), dirs.skip(1));
    }
}

/// Drive the state machine over a script of abstract events exactly as the
/// run loop does: each iteration draws one frame, waits for one event,
/// derives and applies its action, and checks the termination flag.
/// Returns how many frames were drawn and how many event waits happened:
/// one of each per consumed event — and, once an action has set the
/// termination flag, no further draw and no further wait at all.
pub fn run_scripted(app: &mut App, events: &Vec<AppEvent>) -> (counts: (usize, usize))
    ensures
        counts.0 == counts.1,
        counts.0 == consumed_count(*old(app), events@),
        *final(app) == state_after(*old(app), events@.take(counts.0 as int)),
        old(app).wf() ==> final(app).wf(),
        counts.0 < events@.len() ==> state_after(
            *old(app),
            events@.take(counts.0 as int),
        ).should_quit,
        forall|j: int|
            1 <= j < counts.0 ==> !state_after(*old(app), events@.take(j)).should_quit,
{
    let ghost s0 = *app;
    proof {
        assert(events@.skip(0) =~= events@);
        assert(events@.take(0) =~= Seq::<AppEvent>::empty());
        assert(state_after(s0, Seq::<AppEvent>::empty()) == s0);
    }
    let mut i: usize = 0;
    let mut draws: usize = 0;
    let mut waits: usize = 0;
    let mut done: bool = false;
    while !done && i < events.len()
        invariant
            i <= events@.len(),
            draws == i,
            waits == i,
            *app == state_after(s0, events@.take(i as int)),
            s0.wf() ==> app.wf(),
            !done ==> (i == 0 || !app.should_quit),
            done ==> i >= 1 && app.should_quit,
            done ==> consumed_count(s0, events@) == i,
            !done ==> consumed_count(s0, events@) == i + consumed_count(
                *app,
                events@.skip(i as int),
            ),
            forall|j: int| 1 <= j < i ==> !state_after(s0, events@.take(j)).should_quit,
        decreases events.len() - i,
    {
        // One frame is drawn, then one event is awaited; the counters are
        // this model's record of those two outside effects.
        draws = draws + 1;
        let e = events[i];
        waits = waits + 1;
        proof {
            let ghost pre = events@.take(i as int);
            let ghost rest = events@.skip(i as int);
            assert(rest[0] == events@[i as int]);
            assert(rest.skip(1) =~= events@.skip(i as int + 1));
            assert(events@.take(i as int + 1) =~= pre.push(events@[i as int]));
            lemma_state_after_push(s0, pre, events@[i as int]);
        }
        let a = app.derive_action(e);
        app.update(a);
        done = app.should_quit;
        i = i + 1;
    }
    if !done {
        proof {
            assert(events@.skip(i as int) =~= Seq::<AppEvent>::empty());
        }
    }
    (draws, waits)
}

/// Processing one more event is one more step on the state the prefix
/// reached.
pub proof fn lemma_state_after_push(s: App, events: Seq<AppEvent>, e: AppEvent)
    ensures
        state_after(s, events.push(e)) == state_after(s, events).step_spec(e),
    decreases events.len(),
{
    if events.len() == 0 {
        assert(events.push(e)[0] == e);
        assert(events.push(e).skip(1) =~= Seq::<AppEvent>::empty());
        assert(state_after(s.step_spec(e), Seq::<AppEvent>::empty()) == s.step_spec(e));
        assert(state_after(s, events.push(e)) == s.step_spec(e));
        assert(state_after(s, events) == s);
    } else {
        assert(events.push(e)[0] == events[0]);
        assert(events.push(e).skip(1) =~= events.skip(1).push(e));
        lemma_state_after_push(s.step_spec(events[0]), events.skip(1), e);
        assert(state_after(s, events.push(e)) == state_after(
            s.step_spec(events[0]),
            events.skip(1).push(e),
        ));
        assert(state_after(s, events) == state_after(s.step_spec(events[0]), events.skip(1)));
    }
}

} // verus!

