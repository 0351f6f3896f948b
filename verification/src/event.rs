use vstd::prelude::*;

verus! {

/// A key press as the state machine reads it: the codes with a binding, and
/// every other code collapsed to `Other`.
#[derive(Debug, Clone, Copy, PartialEq, Eq, Structural)]
pub enum KeyCode {
    Char(char),
    Up,
    Down,
    Enter,
    Other,
}

/// One abstract event, produced by the multiplexer and consumed exactly
/// once by the state machine.
#[derive(Debug, Clone, Copy, PartialEq, Eq, Structural)]
pub enum AppEvent {
    /// The periodic timer fired.
    Tick,
    /// A key was pressed.
    Key(KeyCode),
    /// The terminal was resized to the given width and height.
    Resize(u16, u16),
}

/// What the raw input device delivered in one round: a key press, a resize
/// notification, or any other terminal signal, which the multiplexer
/// discards silently.
#[derive(Debug, Clone, Copy, PartialEq, Eq, Structural)]
pub enum RawEvent {
    Key(KeyCode),
    Resize(u16, u16),
    Other,
}

/// The source that won one round of the multiplexer's race — whichever was
/// ready first: the input stream yielded a raw event, the input stream
/// ended or errored, or the periodic timer fired.
#[derive(Debug, Clone, Copy, PartialEq, Eq, Structural)]
pub enum Signal {
    Input(RawEvent),
    InputClosed,
    Timer,
}

/// The abstract event one winning signal surfaces: a timer firing is a
/// tick; a recognized raw event keeps its content; an unrecognized raw
/// event is discarded (`None`), so the caller waits for the next round; and
/// an ended or errored input stream degrades to ticks rather than hanging
/// the loop.
pub open spec fn event_of(sig: Signal) -> Option<AppEvent> {
    match sig {
        Signal::Timer => Some(AppEvent::Tick),
        Signal::InputClosed => Some(AppEvent::Tick),
        Signal::Input(RawEvent::Key(k)) => Some(AppEvent::Key(k)),
        Signal::Input(RawEvent::Resize(w, h)) => Some(AppEvent::Resize(w, h)),
        Signal::Input(RawEvent::Other) => None,
    }
}

/// The whole sequence of abstract events a script of winning signals
/// surfaces, one round per signal, in the order the signals became ready.
pub open spec fn emitted_of(signals: Seq<Signal>) -> Seq<AppEvent>
    decreases signals.len(),
{
    if signals.len() == 0 {
        Seq::empty()
    } else {
        match event_of(signals[0]) {
            Some(e) => seq![e] + emitted_of(signals.skip(1)),
            None => emitted_of(signals.skip(1)),
        }
    }
}

/// The multiplexer: merges the asynchronous input-device stream with the
/// periodic timer into one ordered sequence of abstract events. The
/// asynchronous race itself runs outside this crate; each round hands the
/// winning signal to `next`, which decides what, if anything, surfaces.
pub struct EventHandler {
    /// The interval the periodic timer is armed with, in milliseconds.
    pub tick_rate_ms: u64,
}

impl EventHandler {
    /// A multiplexer whose timer fires every `tick_rate_ms` milliseconds.
    pub fn new(tick_rate_ms: u64) -> (h: EventHandler)
        ensures
            h.tick_rate_ms == tick_rate_ms,
    {
        EventHandler { tick_rate_ms }
    }

    /// Resolve one round of the race: at most one abstract event surfaces
    /// per winning signal, and exactly one unless the input stream
    /// delivered an unrecognized raw event. `None` asks the caller to run
    /// the race again.
    pub fn next(&self, winner: Signal) -> (r: Option<AppEvent>)
        ensures
            r == event_of(winner),
    {
        match winner {
            Signal::Timer => Some(AppEvent::Tick),
            Signal::InputClosed => Some(AppEvent::Tick),
            Signal::Input(RawEvent::Key(k)) => Some(AppEvent::Key(k)),
            Signal::Input(RawEvent::Resize(w, h)) => Some(AppEvent::Resize(w, h)),
            Signal::Input(RawEvent::Other) => None,
        }
    }

    /// Run the multiplexer over a whole script of winning signals,
    /// collecting every event that surfaces, in order.
    pub fn drain(&self, signals: &Vec<Signal>) -> (r: Vec<AppEvent>)
        ensures
            r@ == emitted_of(signals@),
    {
        let mut r: Vec<AppEvent> = Vec::new();
        let mut i: usize = 0;
        while i < signals.len()
            invariant
                i <= signals.len(),
                r@ == emitted_of(signals@.take(i as int)),
            decreases signals.len() - i,
        {
            proof {
                lemma_emission_order(signals@.take(i as int), seq![signals@[i as int]]);
                lemma_one_event_per_signal(signals@[i as int]);
                assert(signals@.take(i as int + 1)
                    =~= signals@.take(i as int) + seq![signals@[i as int]]);
            }
            match self.next(signals[i]) {
                Some(e) => {
                    r.push(e);
                    proof {
                        assert(r@ =~= emitted_of(signals@.take(i as int + 1)));
                    }
                },
                None => {
                    proof {
                        assert(r@ =~= emitted_of(signals@.take(i as int + 1)));
                    }
                },
            }
            i = i + 1;
        }
        proof {
            assert(signals@.take(signals@.len() as int) =~= signals@);
        }
        r
    }
}

/// Events surface in the order their sources signaled readiness: everything
/// the earlier signals produce comes, unchanged, before everything the later
/// signals produce. In particular a timer tick never jumps ahead of an
/// already-ready input event, nor an input event ahead of an already-fired
/// tick — neither source has priority over the other.
pub proof fn lemma_emission_order(s1: Seq<Signal>, s2: Seq<Signal>)
    ensures
        emitted_of(s1 + s2) =~= emitted_of(s1) + emitted_of(s2),
    decreases s1.len(),
{
    if s1.len() == 0 {
        assert(s1 + s2 =~= s2);
        assert(emitted_of(s1) =~= Seq::<AppEvent>::empty());
    } else {
        assert((s1 + s2)[0] == s1[0]);
        assert((s1 + s2).skip(1) =~= s1.skip(1) + s2);
        lemma_emission_order(s1.skip(1), s2);
    }
}

/// Each winning signal surfaces at most one abstract event — never two —
/// and exactly one unless it carried an unrecognized raw event, which is
/// discarded silently.
pub proof fn lemma_one_event_per_signal(sig: Signal)
    ensures
        emitted_of(seq![sig]).len() <= 1,
        event_of(sig) is Some ==> emitted_of(seq![sig]) =~= seq![event_of(sig).unwrap()],
        event_of(sig) is None ==> emitted_of(seq![sig]).len() == 0,
        event_of(sig) is None <==> sig == Signal::Input(RawEvent::Other),
{
    let s = seq![sig];
    assert(s.len() == 1);
    assert(s[0] == sig);
    assert(s.skip(1) =~= Seq::<Signal>::empty());
    assert(emitted_of(Seq::<Signal>::empty()) =~= Seq::<AppEvent>::empty());
    if event_of(sig) is Some {
        assert(emitted_of(s) =~= seq![event_of(sig).unwrap()] + emitted_of(s.skip(1)));
        assert(emitted_of(s) =~= seq![event_of(sig).unwrap()]);
    } else {
        assert(emitted_of(s) =~= emitted_of(s.skip(1)));
    }
}

} // verus!
