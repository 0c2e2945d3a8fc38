//! The application's screens as a closed set of variants, with an explicit
//! transition function from screen and event to the next screen.

use vstd::prelude::*;

use crate::command::{word_popped, Command};
use crate::context::{appended_log, Context};
use crate::entities::{dec_digits, push_decimal, Enemy, Entity, Hero, Id};
use crate::entity_list::{list_selection, EntityList};
use crate::event::{key_code_line, key_log_line, Event, KeyCode};
use crate::strutil::string_push;
use crate::turn::{
    clamped_cursor, distinct_ids, ids_of, lemma_sort_distinct_ids, nav_cursor, nudged_offset,
    pop_model, sort_by_spd, Snapshot, Turn,
};

verus! {

/// Which screen the application shows.
#[derive(Clone, Copy, Debug, PartialEq, Eq, Structural)]
pub enum StateType {
    Welcome,
    InGame,
}

/// The opening screen.
pub struct Welcome {}

/// The screen transition the welcome screen takes for an event.
pub open spec fn welcome_next(e: Event) -> Option<StateType> {
    match e {
        Event::Key(k) => if k.code is Enter {
            Some(StateType::InGame)
        } else {
            None::<StateType>
        },
        _ => None::<StateType>,
    }
}

/// Whether the event asks the welcome screen to end the session.
pub open spec fn welcome_quits(e: Event) -> bool {
    match e {
        Event::Key(k) => k.code == KeyCode::Char('q'),
        _ => false,
    }
}

impl Welcome {
    pub fn new() -> (r: Welcome) {
        Welcome {  }
    }

    pub fn init(&mut self) {
    }

    pub fn update(&mut self, ctx: &mut Context) -> (r: Option<StateType>)
        ensures
            r is None,
            *final(ctx) == *old(ctx),
    {
        None
    }

    /// Enter continues into the game; `q` asks the session to end; every
    /// key event leaves a debug-log line naming its code.
    pub fn handle_event(&mut self, event: Event, ctx: &mut Context) -> (r: Option<StateType>)
        ensures
            r == welcome_next(event),
            final(ctx).quit_requested() == (old(ctx).quit_requested() || welcome_quits(event)),
            final(ctx).suspend_requested() == old(ctx).suspend_requested(),
            final(ctx).log() == (match event {
                Event::Key(k) => appended_log(old(ctx).log(), key_log_line(k.code)),
                _ => old(ctx).log(),
            }),
    {
        match event {
            Event::Key(key) => {
                ctx.push_log(key_code_line(&key.code));
                match key.code {
                    KeyCode::Enter => {
                        return Some(StateType::InGame);
                    },
                    KeyCode::Char(c) => {
                        if c == 'q' {
                            ctx.request_quit();
                        }
                    },
                    _ => {},
                }
            },
            _ => {},
        }
        None
    }

    pub fn get_type(&self) -> (r: StateType)
        ensures
            r == StateType::Welcome,
    {
        StateType::Welcome
    }

    pub fn destroy(&mut self) {
    }
}

/// The interactive widgets of the in-game screen.
#[derive(Clone, Copy, Debug, PartialEq, Eq, Structural)]
pub enum StateWidget {
    Hero,
    Enemy,
    Turn,
    Log,
    Command,
}

/// A navigation step between widgets.
#[derive(Clone, Copy, Debug, PartialEq, Eq, Structural)]
pub enum NavDirection {
    Up,
    Down,
    Right,
    Left,
}

/// The widget reached from `w` by one navigation step, if any: the widgets
/// sit in a fixed layout with the lists and the turn queue on top, the log
/// below them, and the command line at the bottom.
pub open spec fn nav_target(w: StateWidget, d: NavDirection) -> Option<StateWidget> {
    match d {
        NavDirection::Up => match w {
            StateWidget::Command => Some(StateWidget::Log),
            StateWidget::Log => Some(StateWidget::Hero),
            _ => None::<StateWidget>,
        },
        NavDirection::Down => match w {
            StateWidget::Log => Some(StateWidget::Command),
            StateWidget::Hero => Some(StateWidget::Log),
            StateWidget::Enemy => Some(StateWidget::Log),
            StateWidget::Turn => Some(StateWidget::Log),
            _ => None::<StateWidget>,
        },
        NavDirection::Right => match w {
            StateWidget::Hero => Some(StateWidget::Turn),
            StateWidget::Turn => Some(StateWidget::Enemy),
            _ => None::<StateWidget>,
        },
        NavDirection::Left => match w {
            StateWidget::Enemy => Some(StateWidget::Turn),
            StateWidget::Turn => Some(StateWidget::Hero),
            _ => None::<StateWidget>,
        },
    }
}

/// The navigation direction a key means, if any.
pub open spec fn nav_direction(e: Event) -> Option<NavDirection> {
    match e {
        Event::Key(k) => match k.code {
            KeyCode::Up => Some(NavDirection::Up),
            KeyCode::Down => Some(NavDirection::Down),
            KeyCode::Right => Some(NavDirection::Right),
            KeyCode::Left => Some(NavDirection::Left),
            KeyCode::Char(c) => if c == 'k' {
                Some(NavDirection::Up)
            } else if c == 'j' {
                Some(NavDirection::Down)
            } else if c == 'l' {
                Some(NavDirection::Right)
            } else if c == 'h' {
                Some(NavDirection::Left)
            } else {
                None::<NavDirection>
            },
            _ => None::<NavDirection>,
        },
        _ => None::<NavDirection>,
    }
}

/// The selected widget after navigation: nothing moves while a widget is
/// entered, and a step off the layout stays put.
pub open spec fn navigated(w: StateWidget, in_widget: bool, e: Event) -> StateWidget {
    if in_widget {
        w
    } else {
        match nav_direction(e) {
            Some(d) => match nav_target(w, d) {
                Some(nw) => nw,
                None => w,
            },
            None => w,
        }
    }
}

/// Whether the event asks the in-game screen to end the session, given
/// whether the command line had focus.
pub open spec fn quit_pressed(e: Event, ce: bool) -> bool {
    match e {
        Event::Key(k) => match k.code {
            KeyCode::Char(c) => c == 'q' && !ce,
            _ => false,
        },
        _ => false,
    }
}

/// The command line's focus after the event: `:` gives it focus, Tab takes
/// it while the command widget is selected, Enter gives it when the
/// command widget is selected outside any entered widget, Esc takes it
/// when it was the entered widget.
pub open spec fn cmd_entered_after(e: Event, w: StateWidget, iw: bool, ce: bool) -> bool {
    match e {
        Event::Key(k) => match k.code {
            KeyCode::Char(c) => if c == ':' && !ce {
                true
            } else {
                ce
            },
            KeyCode::Enter => if !iw && w == StateWidget::Command {
                true
            } else {
                ce
            },
            KeyCode::Tab => if w == StateWidget::Command {
                false
            } else {
                ce
            },
            KeyCode::Esc => if iw && w == StateWidget::Command {
                false
            } else {
                ce
            },
            _ => ce,
        },
        _ => ce,
    }
}

/// The command line's content after the event: typed characters land in it
/// while it is selected and focused, control deletes a word, Backspace a
/// character, and Enter executes and clears it.
pub open spec fn cmd_content_after(
    e: Event,
    w: StateWidget,
    iw: bool,
    ce: bool,
    cc: Seq<char>,
) -> Seq<char> {
    match e {
        Event::Key(k) => match k.code {
            KeyCode::Char(c) => if w == StateWidget::Command && ce {
                if k.ctrl {
                    word_popped(cc, false)
                } else {
                    cc.push(c)
                }
            } else {
                cc
            },
            KeyCode::Enter => if iw && w == StateWidget::Command && ce {
                Seq::<char>::empty()
            } else {
                cc
            },
            KeyCode::Backspace => if w == StateWidget::Command && ce && cc.len() > 0 {
                cc.drop_last()
            } else {
                cc
            },
            _ => cc,
        },
        _ => cc,
    }
}

/// Whether a widget is entered after the event: Enter enters the selected
/// widget (the log cannot be entered), Esc leaves it.
pub open spec fn in_widget_after(e: Event, w: StateWidget, iw: bool) -> bool {
    match e {
        Event::Key(k) => match k.code {
            KeyCode::Enter => if !iw && w != StateWidget::Log {
                true
            } else {
                iw
            },
            KeyCode::Esc => false,
            _ => iw,
        },
        _ => iw,
    }
}

/// The selected widget after the key phase, before navigation: `:` selects
/// the command line.
pub open spec fn widget_after_keys(e: Event, w: StateWidget, ce: bool) -> StateWidget {
    match e {
        Event::Key(k) => match k.code {
            KeyCode::Char(c) => if c == ':' && !ce {
                StateWidget::Command
            } else {
                w
            },
            _ => w,
        },
        _ => w,
    }
}

/// Whether the event makes the entered command line execute, pushing its
/// content onto the screen's log.
pub open spec fn log_pushed(e: Event, w: StateWidget, iw: bool, ce: bool) -> bool {
    match e {
        Event::Key(k) => k.code is Enter && iw && w == StateWidget::Command && ce,
        _ => false,
    }
}

/// Whether the widget `target` holds keyboard focus after the event.
pub open spec fn focus_after(
    e: Event,
    w: StateWidget,
    iw: bool,
    target: StateWidget,
    f: bool,
) -> bool {
    match e {
        Event::Key(k) => match k.code {
            KeyCode::Enter => if !iw && w == target {
                true
            } else {
                f
            },
            KeyCode::Esc => if iw && w == target {
                false
            } else {
                f
            },
            _ => f,
        },
        _ => f,
    }
}

/// Whether the event is handed on to the widget `target` at the end of
/// the cycle.
pub open spec fn dispatched(
    e: Event,
    w: StateWidget,
    iw: bool,
    ce: bool,
    target: StateWidget,
) -> bool {
    in_widget_after(e, w, iw) && widget_after_keys(e, w, ce) == target
}

/// The snapshot the scheduler keeps of a participant.
pub open spec fn snap_of<E: Entity>(e: E) -> Snapshot {
    Snapshot { id: e.spec_id(), spd: e.spec_stat().spd }
}

/// The snapshots of a side's participants, in list order.
pub open spec fn snaps_of<E: Entity>(s: Seq<E>) -> Seq<Snapshot> {
    s.map_values(|e: E| snap_of(e))
}

/// Heroes and enemies paired off and interleaved, hero first; whoever has
/// more participants than the other side keeps the surplus out of the
/// round.
pub open spec fn interleaved_snapshots(hs: Seq<Snapshot>, es: Seq<Snapshot>) -> Seq<Snapshot> {
    Seq::new(
        2 * vstd::math::min(hs.len() as int, es.len() as int) as nat,
        |i: int|
            if i % 2 == 0 {
                hs[i / 2]
            } else {
                es[i / 2]
            },
    )
}

/// Milliseconds between scheduled turn advances.
pub const TURN_INTERVAL_MS: u64 = 2000;

/// The debug-log line naming the actor whose turn it is,
/// newline-terminated.
pub open spec fn turn_log_line(t: Option<Id>) -> Seq<char> {
    seq!['C', 'u', 'r', 'r', 'e', 'n', 't', ' ', 't', 'u', 'r', 'n', ':', ' '] + (match t {
        Some(id) => seq!['S', 'o', 'm', 'e', '('] + dec_digits(id as nat) + seq![')'],
        None => seq!['N', 'o', 'n', 'e'],
    }) + seq!['\n']
}

/// Renders the debug-log line for the actor whose turn it is.
fn current_turn_line(t: &Option<Id>) -> (r: String)
    ensures
        r@ == turn_log_line(*t),
{
    let mut s = String::new();
    string_push(&mut s, 'C');
    string_push(&mut s, 'u');
    string_push(&mut s, 'r');
    string_push(&mut s, 'r');
    string_push(&mut s, 'e');
    string_push(&mut s, 'n');
    string_push(&mut s, 't');
    string_push(&mut s, ' ');
    string_push(&mut s, 't');
    string_push(&mut s, 'u');
    string_push(&mut s, 'r');
    string_push(&mut s, 'n');
    string_push(&mut s, ':');
    string_push(&mut s, ' ');
    match *t {
        Some(id) => {
            string_push(&mut s, 'S');
            string_push(&mut s, 'o');
            string_push(&mut s, 'm');
            string_push(&mut s, 'e');
            string_push(&mut s, '(');
            push_decimal(&mut s, id as u64);
            string_push(&mut s, ')');
        },
        None => {
            string_push(&mut s, 'N');
            string_push(&mut s, 'o');
            string_push(&mut s, 'n');
            string_push(&mut s, 'e');
        },
    }
    string_push(&mut s, '\n');
    proof {
        assert(s@ =~= turn_log_line(*t));
    }
    s
}

/// The in-game screen: both participant lists, the turn queue, a log, and
/// the command line.
pub struct InGame {
    heroes: EntityList<Hero>,
    enemies: EntityList<Enemy>,
    current_turn: Option<Id>,
    selected_widget: StateWidget,
    is_in_a_widget: bool,
    command: Command,
    log: Vec<String>,
    turn: Turn,
    timer_ms: u64,
}

impl InGame {
    /// The hero list.
    pub closed spec fn heroes(&self) -> EntityList<Hero> {
        self.heroes
    }

    /// The enemy list.
    pub closed spec fn enemies(&self) -> EntityList<Enemy> {
        self.enemies
    }

    /// The actor whose turn it is, as of the last advance.
    pub closed spec fn current(&self) -> Option<Id> {
        self.current_turn
    }

    /// The selected widget.
    pub closed spec fn widget(&self) -> StateWidget {
        self.selected_widget
    }

    /// Whether a widget is entered.
    pub closed spec fn in_widget(&self) -> bool {
        self.is_in_a_widget
    }

    /// The command line.
    pub closed spec fn cmd(&self) -> Command {
        self.command
    }

    /// The executed command lines, oldest first.
    pub closed spec fn log_view(&self) -> Seq<String> {
        self.log@
    }

    /// The turn scheduler.
    pub closed spec fn sched(&self) -> Turn {
        self.turn
    }

    /// The reference instant of the turn timer, in milliseconds.
    pub closed spec fn timer_origin(&self) -> u64 {
        self.timer_ms
    }

    pub fn new() -> (r: InGame)
        ensures
            r.heroes().list().len() == 0,
            r.enemies().list().len() == 0,
            r.current() is None,
            r.widget() == StateWidget::Command,
            !r.in_widget(),
            r.cmd().content() == Seq::<char>::empty(),
            !r.cmd().entered(),
            r.log_view().len() == 0,
            r.sched().round().len() == 0,
            r.sched().roster().len() == 0,
            r.timer_origin() == 0,
    {
        InGame {
            heroes: EntityList::new(),
            enemies: EntityList::new(),
            current_turn: None,
            selected_widget: StateWidget::Command,
            is_in_a_widget: false,
            command: Command::new(),
            log: Vec::new(),
            turn: Turn::new(),
            timer_ms: 0,
        }
    }

    /// The selected widget.
    pub fn selected(&self) -> (r: StateWidget)
        ensures
            r == self.widget(),
    {
        self.selected_widget
    }

    /// The actor whose turn it is, as of the last advance.
    pub fn current_turn(&self) -> (r: Option<Id>)
        ensures
            r == self.current(),
    {
        self.current_turn
    }

    /// Whether a widget is entered.
    pub fn is_in_widget(&self) -> (r: bool)
        ensures
            r == self.in_widget(),
    {
        self.is_in_a_widget
    }

    /// The hero list.
    pub fn heroes_list(&self) -> (r: &EntityList<Hero>)
        ensures
            *r == self.heroes(),
    {
        &self.heroes
    }

    /// The enemy list.
    pub fn enemies_list(&self) -> (r: &EntityList<Enemy>)
        ensures
            *r == self.enemies(),
    {
        &self.enemies
    }

    /// The executed command lines, oldest first.
    pub fn get_log(&self) -> (r: &Vec<String>)
        ensures
            r@ == self.log_view(),
    {
        &self.log
    }

    /// The command line.
    pub fn command_line(&self) -> (r: &Command)
        ensures
            *r == self.cmd(),
    {
        &self.command
    }

    /// The turn scheduler.
    pub fn scheduler(&self) -> (r: &Turn)
        ensures
            *r == self.sched(),
    {
        &self.turn
    }

    /// The widget `w` moved one step in direction `direction`, when the
    /// layout has a neighbour there.
    fn nav_to(&mut self, direction: NavDirection)
        ensures
            final(self).heroes() == old(self).heroes(),
            final(self).enemies() == old(self).enemies(),
            final(self).current() == old(self).current(),
            final(self).in_widget() == old(self).in_widget(),
            final(self).cmd() == old(self).cmd(),
            final(self).log_view() == old(self).log_view(),
            final(self).sched() == old(self).sched(),
            final(self).timer_origin() == old(self).timer_origin(),
            final(self).widget() == (match nav_target(old(self).widget(), direction) {
                Some(nw) => nw,
                None => old(self).widget(),
            }),
    {
        let maybe_next_widget = match direction {
            NavDirection::Up => {
                match self.selected_widget {
                    StateWidget::Command => Some(StateWidget::Log),
                    StateWidget::Log => Some(StateWidget::Hero),
                    _ => None,
                }
            },
            NavDirection::Down => {
                match self.selected_widget {
                    StateWidget::Log => Some(StateWidget::Command),
                    StateWidget::Hero => Some(StateWidget::Log),
                    StateWidget::Enemy => Some(StateWidget::Log),
                    StateWidget::Turn => Some(StateWidget::Log),
                    _ => None,
                }
            },
            NavDirection::Right => {
                match self.selected_widget {
                    StateWidget::Hero => Some(StateWidget::Turn),
                    StateWidget::Turn => Some(StateWidget::Enemy),
                    _ => None,
                }
            },
            NavDirection::Left => {
                match self.selected_widget {
                    StateWidget::Enemy => Some(StateWidget::Turn),
                    StateWidget::Turn => Some(StateWidget::Hero),
                    _ => None,
                }
            },
        };
        if let Some(next_wid) = maybe_next_widget {
            self.selected_widget = next_wid;
        }
    }

    /// Populates both sides with three participants each — identifiers
    /// assigned in sequence so no two participants share one — pairs them
    /// off into the scheduler's roster, and starts the first round.
    pub fn init(&mut self, now_ms: u64)
        requires
            old(self).heroes().list().len() + old(self).enemies().list().len() + 6
                <= u32::MAX,
        ensures
            forall|k: int|
                0 <= k < 3 ==> #[trigger] final(self).heroes().list()[old(
                    self,
                ).heroes().list().len() + k].id == old(self).heroes().list().len() + old(
                    self,
                ).enemies().list().len() + k,
            forall|k: int|
                0 <= k < 3 ==> #[trigger] final(self).enemies().list()[old(
                    self,
                ).enemies().list().len() + k].spec_id() == old(self).heroes().list().len() + old(
                    self,
                ).enemies().list().len() + 3 + k,
            old(self).heroes().list().len() == 0 && old(self).enemies().list().len() == 0
                ==> distinct_ids(final(self).sched().roster()),
            final(self).heroes().list().len() == old(self).heroes().list().len() + 3,
            final(self).heroes().list().take(old(self).heroes().list().len() as int) == old(
                self,
            ).heroes().list(),
            final(self).heroes().entered() == old(self).heroes().entered(),
            final(self).heroes().selected() == old(self).heroes().selected(),
            final(self).heroes().turn_id() == old(self).heroes().turn_id(),
            final(self).enemies().list().len() == old(self).enemies().list().len() + 3,
            final(self).enemies().list().take(old(self).enemies().list().len() as int) == old(
                self,
            ).enemies().list(),
            final(self).enemies().entered() == old(self).enemies().entered(),
            final(self).enemies().selected() == old(self).enemies().selected(),
            final(self).enemies().turn_id() == old(self).enemies().turn_id(),
            final(self).sched().roster() == sort_by_spd(
                interleaved_snapshots(
                    snaps_of(final(self).heroes().list()),
                    snaps_of(final(self).enemies().list()),
                ),
            ),
            final(self).sched().round() == ids_of(final(self).sched().roster()),
            final(self).sched().cursor() == old(self).sched().cursor(),
            final(self).sched().offset() == old(self).sched().offset(),
            final(self).sched().entered() == old(self).sched().entered(),
            final(self).current() == (if final(self).sched().round().len() > 0 {
                Some(final(self).sched().round()[0])
            } else {
                None::<Id>
            }),
            final(self).timer_origin() == now_ms,
            final(self).widget() == old(self).widget(),
            final(self).in_widget() == old(self).in_widget(),
            final(self).cmd() == old(self).cmd(),
            final(self).log_view() == old(self).log_view(),
    {
        let hn0 = self.heroes.len();
        let en0 = self.enemies.len();
        let base = (hn0 as u64 + en0 as u64) as u32;
        self.heroes.push(Hero::with_id(base));
        self.heroes.push(Hero::with_id(base + 1));
        self.heroes.push(Hero::with_id(base + 2));
        self.enemies.push(Enemy::with_id(base + 3));
        self.enemies.push(Enemy::with_id(base + 4));
        self.enemies.push(Enemy::with_id(base + 5));

        let ghost hs = snaps_of(self.heroes().list());
        let ghost es = snaps_of(self.enemies().list());
        let ghost mid = *self;

        let hn = self.heroes.len();
        let en = self.enemies.len();
        let m = if hn < en {
            hn
        } else {
            en
        };
        let mut entities: Vec<Snapshot> = Vec::new();
        let mut i: usize = 0;
        while i < m
            invariant
                i <= m,
                *self == mid,
                m == vstd::math::min(hs.len() as int, es.len() as int),
                hs == snaps_of(self.heroes().list()),
                es == snaps_of(self.enemies().list()),
                entities@ == interleaved_snapshots(hs, es).take(2 * i as int),
            decreases m - i,
        {
            let h = self.heroes.get(i);
            entities.push(Snapshot { id: h.id(), spd: h.stat().spd });
            let e = self.enemies.get(i);
            entities.push(Snapshot { id: e.id(), spd: e.stat().spd });
            proof {
                assert(interleaved_snapshots(hs, es)[2 * i as int] == hs[i as int]);
                assert(interleaved_snapshots(hs, es)[2 * i as int + 1] == es[i as int]);
                assert(interleaved_snapshots(hs, es).take(2 * (i + 1) as int)
                    =~= interleaved_snapshots(hs, es).take(2 * i as int).push(
                    hs[i as int],
                ).push(es[i as int]));
            }
            i += 1;
        }
        proof {
            assert(interleaved_snapshots(hs, es).take(2 * m as int) =~= interleaved_snapshots(
                hs,
                es,
            ));
        }
        self.turn.set_entities(entities);
        self.current_turn = self.turn.get_current_turn();
        self.timer_ms = now_ms;
        proof {
            if old(self).heroes().list().len() == 0 && old(self).enemies().list().len() == 0 {
                let snaps = interleaved_snapshots(hs, es);
                assert forall|i: int, j: int| 0 <= i < j < snaps.len() implies snaps[i].id
                    != snaps[j].id by {
                    assert(snaps[i].id == if i % 2 == 0 {
                        hs[i / 2].id
                    } else {
                        es[i / 2].id
                    });
                    assert(snaps[j].id == if j % 2 == 0 {
                        hs[j / 2].id
                    } else {
                        es[j / 2].id
                    });
                }
                lemma_sort_distinct_ids(snaps);
            }
        }
    }

    /// One update cycle: re-sorts the roster so stat changes reach future
    /// rounds, and advances the turn once the interval has elapsed,
    /// leaving a debug-log line naming the new actor.
    pub fn update(&mut self, ctx: &mut Context, now_ms: u64) -> (r: Option<StateType>)
        requires
            old(self).sched().round().len() >= 1,
            old(self).sched().roster().len() >= 1,
        ensures
            r is None,
            final(ctx).quit_requested() == old(ctx).quit_requested(),
            final(ctx).suspend_requested() == old(ctx).suspend_requested(),
            now_ms < old(self).timer_origin() + TURN_INTERVAL_MS ==> final(ctx).log() == old(
                ctx,
            ).log(),
            now_ms >= old(self).timer_origin() + TURN_INTERVAL_MS ==> final(ctx).log()
                == appended_log(old(ctx).log(), turn_log_line(final(self).current())),
            final(self).heroes() == old(self).heroes(),
            final(self).enemies() == old(self).enemies(),
            final(self).widget() == old(self).widget(),
            final(self).in_widget() == old(self).in_widget(),
            final(self).cmd() == old(self).cmd(),
            final(self).log_view() == old(self).log_view(),
            final(self).sched().roster() == sort_by_spd(old(self).sched().roster()),
            final(self).sched().entered() == old(self).sched().entered(),
            final(self).sched().offset() == old(self).sched().offset(),
            now_ms < old(self).timer_origin() + TURN_INTERVAL_MS ==> ({
                &&& final(self).sched().round() == old(self).sched().round()
                &&& final(self).sched().cursor() == old(self).sched().cursor()
                &&& final(self).current() == old(self).current()
                &&& final(self).timer_origin() == old(self).timer_origin()
            }),
            now_ms >= old(self).timer_origin() + TURN_INTERVAL_MS ==> ({
                let sorted_ids = ids_of(sort_by_spd(old(self).sched().roster()));
                &&& final(self).sched().round() == pop_model(
                    old(self).sched().round(),
                    sorted_ids,
                ).0
                &&& final(self).current() == pop_model(old(self).sched().round(), sorted_ids).1
                &&& final(self).timer_origin() == now_ms
                &&& final(self).sched().cursor() == clamped_cursor(
                    old(self).sched().cursor(),
                    (final(self).sched().round().len() + final(self).sched().roster().len()) as nat,
                )
            }),
    {
        self.turn.update_next_round_order();
        proof {
            crate::turn::lemma_sort_ensures(old(self).sched().roster());
        }
        if now_ms >= self.timer_ms && now_ms - self.timer_ms >= TURN_INTERVAL_MS {
            self.timer_ms = now_ms;
            self.current_turn = self.turn.pop();
            ctx.push_log(current_turn_line(&self.current_turn));
        }
        None
    }

    /// One event of the in-game screen: typing reaches the command line,
    /// Enter and Esc move focus in and out of widgets, `q` asks to quit,
    /// `:` jumps to the command line, navigation moves the selection, the
    /// entered widget sees the event last, and every key event leaves a
    /// debug-log line naming its code.
    pub fn handle_event(&mut self, event: Event, ctx: &mut Context) -> (r: Option<StateType>)
        requires
            old(self).sched().round().len() + old(self).sched().roster().len() <= usize::MAX,
        ensures
            r is None,
            final(ctx).suspend_requested() == old(ctx).suspend_requested(),
            final(ctx).log() == (match event {
                Event::Key(k) => appended_log(old(ctx).log(), key_log_line(k.code)),
                _ => old(ctx).log(),
            }),
            final(ctx).quit_requested() == (old(ctx).quit_requested() || quit_pressed(
                event,
                old(self).cmd().entered(),
            )),
            final(self).current() == old(self).current(),
            final(self).timer_origin() == old(self).timer_origin(),
            final(self).sched().round() == old(self).sched().round(),
            final(self).sched().roster() == old(self).sched().roster(),
            final(self).cmd().entered() == cmd_entered_after(
                event,
                old(self).widget(),
                old(self).in_widget(),
                old(self).cmd().entered(),
            ),
            final(self).cmd().content() == cmd_content_after(
                event,
                old(self).widget(),
                old(self).in_widget(),
                old(self).cmd().entered(),
                old(self).cmd().content(),
            ),
            final(self).cmd().cursor() == old(self).cmd().cursor(),
            final(self).in_widget() == in_widget_after(
                event,
                old(self).widget(),
                old(self).in_widget(),
            ),
            final(self).widget() == navigated(
                widget_after_keys(event, old(self).widget(), old(self).cmd().entered()),
                in_widget_after(event, old(self).widget(), old(self).in_widget()),
                event,
            ),
            final(self).heroes().list() == old(self).heroes().list(),
            final(self).heroes().turn_id() == old(self).heroes().turn_id(),
            final(self).heroes().entered() == focus_after(
                event,
                old(self).widget(),
                old(self).in_widget(),
                StateWidget::Hero,
                old(self).heroes().entered(),
            ),
            final(self).heroes().selected() == (if dispatched(
                event,
                old(self).widget(),
                old(self).in_widget(),
                old(self).cmd().entered(),
                StateWidget::Hero,
            ) {
                list_selection(old(self).heroes().selected(), old(self).heroes().list().len(), event)
            } else {
                old(self).heroes().selected()
            }),
            final(self).enemies().list() == old(self).enemies().list(),
            final(self).enemies().turn_id() == old(self).enemies().turn_id(),
            final(self).enemies().entered() == focus_after(
                event,
                old(self).widget(),
                old(self).in_widget(),
                StateWidget::Enemy,
                old(self).enemies().entered(),
            ),
            final(self).enemies().selected() == (if dispatched(
                event,
                old(self).widget(),
                old(self).in_widget(),
                old(self).cmd().entered(),
                StateWidget::Enemy,
            ) {
                list_selection(
                    old(self).enemies().selected(),
                    old(self).enemies().list().len(),
                    event,
                )
            } else {
                old(self).enemies().selected()
            }),
            final(self).sched().entered() == focus_after(
                event,
                old(self).widget(),
                old(self).in_widget(),
                StateWidget::Turn,
                old(self).sched().entered(),
            ),
            final(self).sched().cursor() == (if dispatched(
                event,
                old(self).widget(),
                old(self).in_widget(),
                old(self).cmd().entered(),
                StateWidget::Turn,
            ) {
                nav_cursor(
                    old(self).sched().cursor(),
                    (old(self).sched().round().len() + old(self).sched().roster().len()) as nat,
                    event,
                )
            } else {
                old(self).sched().cursor()
            }),
            final(self).sched().offset() == (if dispatched(
                event,
                old(self).widget(),
                old(self).in_widget(),
                old(self).cmd().entered(),
                StateWidget::Turn,
            ) {
                nudged_offset(final(self).sched().cursor(), old(self).sched().offset())
            } else {
                old(self).sched().offset()
            }),
            log_pushed(event, old(self).widget(), old(self).in_widget(), old(self).cmd().entered())
                ==> ({
                &&& final(self).log_view().len() == old(self).log_view().len() + 1
                &&& final(self).log_view().drop_last() == old(self).log_view()
                &&& final(self).log_view().last()@ == old(self).cmd().content()
            }),
            !log_pushed(event, old(self).widget(), old(self).in_widget(), old(self).cmd().entered())
                ==> final(self).log_view() == old(self).log_view(),
    {
        match event {
            Event::Key(k) => {
                match k.code {
                    KeyCode::Char(c) => {
                        if self.selected_widget == StateWidget::Command {
                            if k.ctrl {
                                self.command.pop_word();
                            } else {
                                self.command.push(c);
                            }
                        }
                        if c == 'q' && !self.command.is_entered() {
                            ctx.request_quit();
                        } else if c == ':' && !self.command.is_entered() {
                            self.selected_widget = StateWidget::Command;
                            self.command.enter();
                        }
                    },
                    KeyCode::Enter => {
                        if !self.is_in_a_widget {
                            match self.selected_widget {
                                StateWidget::Hero => self.heroes.enter(),
                                StateWidget::Enemy => self.enemies.enter(),
                                StateWidget::Turn => self.turn.enter(),
                                StateWidget::Log => {},
                                StateWidget::Command => self.command.enter(),
                            }
                            if self.selected_widget != StateWidget::Log {
                                self.is_in_a_widget = true;
                            }
                        } else {
                            match self.selected_widget {
                                StateWidget::Command => {
                                    if self.command.is_entered() {
                                        if let Some(command) = self.command.execute() {
                                            self.log.push(command);
                                        }
                                    }
                                },
                                _ => {},
                            }
                        }
                    },
                    KeyCode::Backspace => {
                        if self.selected_widget == StateWidget::Command
                            && self.command.is_entered() {
                            self.command.pop();
                        }
                    },
                    KeyCode::Tab => {
                        if self.selected_widget == StateWidget::Command {
                            self.command.exit();
                        }
                    },
                    KeyCode::Esc => {
                        if self.is_in_a_widget {
                            match self.selected_widget {
                                StateWidget::Hero => self.heroes.exit(),
                                StateWidget::Enemy => self.enemies.exit(),
                                StateWidget::Turn => self.turn.exit(),
                                StateWidget::Log => {},
                                StateWidget::Command => self.command.exit(),
                            }
                            self.is_in_a_widget = false;
                        }
                    },
                    _ => {},
                }
                ctx.push_log(key_code_line(&k.code));
            },
            _ => {},
        }
        self.handle_nav(&event);
        if self.is_in_a_widget {
            match self.selected_widget {
                StateWidget::Hero => self.heroes.handle_event(&event),
                StateWidget::Enemy => self.enemies.handle_event(&event),
                StateWidget::Turn => self.turn.handle_event(&event),
                StateWidget::Log => {},
                StateWidget::Command => self.command.handle_event(&event),
            }
        }
        None
    }

    pub fn get_type(&self) -> (r: StateType)
        ensures
            r == StateType::InGame,
    {
        StateType::InGame
    }

    pub fn destroy(&mut self)
        ensures
            *final(self) == *old(self),
    {
    }

    /// Navigation for one event: a step only happens while no widget is
    /// entered.
    fn handle_nav(&mut self, e: &Event)
        ensures
            final(self).heroes() == old(self).heroes(),
            final(self).enemies() == old(self).enemies(),
            final(self).current() == old(self).current(),
            final(self).in_widget() == old(self).in_widget(),
            final(self).cmd() == old(self).cmd(),
            final(self).log_view() == old(self).log_view(),
            final(self).sched() == old(self).sched(),
            final(self).timer_origin() == old(self).timer_origin(),
            final(self).widget() == navigated(old(self).widget(), old(self).in_widget(), *e),
    {
        if self.is_in_a_widget {
            return ;
        }
        match *e {
            Event::Key(k) => match k.code {
                KeyCode::Up => self.nav_to(NavDirection::Up),
                KeyCode::Down => self.nav_to(NavDirection::Down),
                KeyCode::Right => self.nav_to(NavDirection::Right),
                KeyCode::Left => self.nav_to(NavDirection::Left),
                KeyCode::Char(c) => {
                    if c == 'k' {
                        self.nav_to(NavDirection::Up);
                    } else if c == 'j' {
                        self.nav_to(NavDirection::Down);
                    } else if c == 'l' {
                        self.nav_to(NavDirection::Right);
                    } else if c == 'h' {
                        self.nav_to(NavDirection::Left);
                    }
                },
                _ => {},
            },
            _ => {},
        }
    }
}

} // verus!
