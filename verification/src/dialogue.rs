//! The dialogue between a session and whoever plays it: what is shown, in
//! which order, and when the player is asked for a line.
//!
//! A front end shows the outputs of a [`Reply`] one after the other. Unless
//! the reply says that the session is over, it then reads one line and hands
//! it to [`Session::respond`], which gives the next reply.

use crate::combat::{after_battle, can_fight, goblin_battle, GOBLIN_DAMAGE};
use crate::input::{choice_of, parse_choice};
use crate::room::Room;
use crate::session::{initial, step, Session, SessionView, Turn, TurnView};
use vstd::prelude::*;

verus! {

/// The words of [`Output::Prompt`].
pub const PROMPT: &'static str = "Please enter your choice:";

/// The words of [`Output::InvalidChoice`].
pub const INVALID_CHOICE: &'static str = "Invalid choice, try again.";

/// One thing to show to the player.
#[derive(Debug, PartialEq)]
pub enum Output {
    /// The player is in this room now: the room's label, and under it the
    /// room's menu if it has one.
    Entered(Room),
    /// The request for a choice, [`PROMPT`]. A line is read right after it.
    Prompt,
    /// The line just read picks nothing from the menu: [`INVALID_CHOICE`].
    InvalidChoice,
    /// What the turn just taken did: a fight, or the end of the session.
    Report(Turn),
}

/// Mathematical model of an [`Output`].
pub enum OutputView {
    Entered(Room),
    Prompt,
    InvalidChoice,
    Report(TurnView),
}

impl View for Output {
    type V = OutputView;

    open spec fn view(&self) -> OutputView {
        match self {
            Output::Entered(room) => OutputView::Entered(*room),
            Output::Prompt => OutputView::Prompt,
            Output::InvalidChoice => OutputView::InvalidChoice,
            Output::Report(turn) => OutputView::Report(turn@),
        }
    }
}

/// What a session has to say before it needs the next line, or before it
/// ends.
#[derive(Debug, PartialEq)]
pub struct Reply {
    /// What to show, first to last.
    pub outputs: Vec<Output>,
    /// Whether the session is over. If it is not, the last output is the
    /// prompt and the next line is the answer to it.
    pub over: bool,
}

/// Mathematical model of a [`Reply`].
pub struct ReplyView {
    pub outputs: Seq<OutputView>,
    pub over: bool,
}

impl View for Reply {
    type V = ReplyView;

    open spec fn view(&self) -> ReplyView {
        ReplyView { outputs: views(self.outputs@), over: self.over }
    }
}

/// The models of `outputs`, one for one.
pub open spec fn views(outputs: Seq<Output>) -> Seq<OutputView> {
    outputs.map_values(|output: Output| output@)
}

/// What happens when the player arrives in the room of `session`, up to the
/// next question or the end.
///
/// The room is announced. A room with a menu then asks. A room without one
/// takes its turn at once and reports it; unless that ends the session, the
/// player arrives in the next room in the same way.
pub open spec fn arrival(session: SessionView) -> (SessionView, ReplyView)
    decreases
        (if session.room.menu_len() > 0 {
            0int
        } else {
            1int
        }),
{
    if session.room.menu_len() > 0 {
        (
            session,
            ReplyView {
                outputs: seq![OutputView::Entered(session.room), OutputView::Prompt],
                over: false,
            },
        )
    } else {
        let (next, turn) = step(session, 0);
        let seen = seq![OutputView::Entered(session.room), OutputView::Report(turn)];
        if turn.ends_session() {
            (next, ReplyView { outputs: seen, over: true })
        } else {
            let (last, rest) = arrival(next);
            (last, ReplyView { outputs: seen + rest.outputs, over: rest.over })
        }
    }
}

/// What happens when `line` is read as the answer to the prompt.
///
/// A line that picks nothing from the menu of the room changes nothing: it
/// is called invalid and the prompt comes again. A line that picks an entry
/// takes the turn with it. A turn into another room goes on with the
/// arrival there; any other turn is reported.
pub open spec fn response(session: SessionView, line: Seq<char>) -> (SessionView, ReplyView) {
    match choice_of(line, session.room.menu_len()) {
        None => (
            session,
            ReplyView { outputs: seq![OutputView::InvalidChoice, OutputView::Prompt], over: false },
        ),
        Some(choice) => {
            let (next, turn) = step(session, choice);
            if turn == TurnView::Moved {
                arrival(next)
            } else {
                (
                    next,
                    ReplyView {
                        outputs: seq![OutputView::Report(turn)],
                        over: turn.ends_session(),
                    },
                )
            }
        },
    }
}

/// Whether answering `line` takes the player into the monster room.
pub open spec fn leads_to_fight(session: SessionView, line: Seq<char>) -> bool {
    choice_of(line, session.room.menu_len()) matches Some(choice) && step(session, choice).0.room
        == Room::MonsterRoom
}

/// Plays the arrival in the room of `session`, adding what is to be shown to
/// `outputs`. Returns whether the session is over.
fn arrive(session: &mut Session, outputs: &mut Vec<Output>) -> (over: bool)
    requires
        old(session).room == Room::MonsterRoom ==> can_fight(&old(session).player),
    ensures
        final(session)@ == arrival(old(session)@).0,
        views(final(outputs)@) == views(old(outputs)@) + arrival(old(session)@).1.outputs,
        over == arrival(old(session)@).1.over,
    decreases
        (if old(session).room.menu_len() > 0 {
            0int
        } else {
            1int
        }),
{
    let room = session.room;
    outputs.push(Output::Entered(room));
    if room.options() > 0 {
        outputs.push(Output::Prompt);
        return false;
    }
    let turn = session.turn(0);
    let over = turn.ends_session();
    outputs.push(Output::Report(turn));
    if over {
        return true;
    }
    arrive(session, outputs)
}

impl Session {
    /// Starts a session and says how it opens: a new player called `name`
    /// arrives at the entrance.
    pub fn start(name: &str) -> (opening: (Session, Reply))
        ensures
            (opening.0@, opening.1@) == arrival(initial(name@)),
    {
        let mut session = Session::new(name);
        let mut outputs: Vec<Output> = Vec::new();
        let over = arrive(&mut session, &mut outputs);
        (session, Reply { outputs, over })
    }

    /// Takes `line` as the player's answer to the prompt and replies to it,
    /// as [`response`] describes.
    ///
    /// If the answer leads into the monster room, the player must be able
    /// to take the blow: see [`can_fight`].
    pub fn respond(&mut self, line: &str) -> (reply: Reply)
        requires
            leads_to_fight(old(self)@, line@) ==> can_fight(&old(self).player),
        ensures
            (final(self)@, reply@) == response(old(self)@, line@),
    {
        let mut outputs: Vec<Output> = Vec::new();
        match parse_choice(line, self.room.options()) {
            None => {
                outputs.push(Output::InvalidChoice);
                outputs.push(Output::Prompt);
                assert(views(outputs@) =~= response(old(self)@, line@).1.outputs);
                Reply { outputs, over: false }
            },
            Some(choice) => {
                let turn = self.turn(choice);
                match turn {
                    Turn::Moved => {
                        let over = arrive(self, &mut outputs);
                        Reply { outputs, over }
                    },
                    _ => {
                        let over = turn.ends_session();
                        outputs.push(Output::Report(turn));
                        assert(views(outputs@) =~= response(old(self)@, line@).1.outputs);
                        Reply { outputs, over }
                    },
                }
            },
        }
    }
}

/// A session opens at the entrance, with the entrance's menu and the prompt.
pub proof fn lemma_opening(name: Seq<char>)
    ensures
        arrival(initial(name)) == (
            initial(name),
            ReplyView {
                outputs: seq![OutputView::Entered(Room::Entrance), OutputView::Prompt],
                over: false,
            },
        ),
{
}

/// A line that picks nothing from the menu is never acted on: the session
/// stays as it is, the line is called invalid, and the player is asked
/// again.
pub proof fn lemma_invalid_line_asks_again(session: SessionView, line: Seq<char>)
    requires
        choice_of(line, session.room.menu_len()) is None,
    ensures
        response(session, line) == (
            session,
            ReplyView { outputs: seq![OutputView::InvalidChoice, OutputView::Prompt], over: false },
        ),
{
}

/// The dialogue that each entry of each menu leads to.
///
/// From the entrance, entry 1 shows the hallway and asks again, and entry 2
/// reports that the player has left, which ends the session where it stands.
/// From the hallway, entry 1 shows the treasure room and reports the win,
/// which ends the session; entry 2 shows the monster room and reports the
/// fight, after which a living player is shown the hallway and asked again,
/// while for any other player the session is over.
pub proof fn lemma_dialogue_table(session: SessionView, line: Seq<char>)
    requires
        choice_of(line, session.room.menu_len()) is Some,
    ensures
        session.room == Room::Entrance || session.room == Room::Hallway,
        session.room == Room::Entrance && choice_of(line, 2) == Some(1int) ==> response(
            session,
            line,
        ) == (
            SessionView { player: session.player, room: Room::Hallway },
            ReplyView {
                outputs: seq![OutputView::Entered(Room::Hallway), OutputView::Prompt],
                over: false,
            },
        ),
        session.room == Room::Entrance && choice_of(line, 2) == Some(2int) ==> response(
            session,
            line,
        ) == (session, ReplyView { outputs: seq![OutputView::Report(TurnView::Left)], over: true }),
        session.room == Room::Hallway && choice_of(line, 2) == Some(1int) ==> response(
            session,
            line,
        ) == (
            SessionView { player: session.player, room: Room::TreasureRoom },
            ReplyView {
                outputs: seq![
                    OutputView::Entered(Room::TreasureRoom),
                    OutputView::Report(TurnView::Won),
                ],
                over: true,
            },
        ),
        session.room == Room::Hallway && choice_of(line, 2) == Some(2int) ==> {
            let player = after_battle(session.player, GOBLIN_DAMAGE as int);
            let fight = OutputView::Report(TurnView::Fought(goblin_battle(session.player)));
            let (next, reply) = response(session, line);
            &&& next.player == player
            &&& player.health > 0 ==> next.room == Room::Hallway && !reply.over && reply.outputs
                == seq![
                OutputView::Entered(Room::MonsterRoom),
                fight,
                OutputView::Entered(Room::Hallway),
                OutputView::Prompt,
            ]
            &&& player.health <= 0 ==> next.room == Room::MonsterRoom && reply.over
                && reply.outputs == seq![OutputView::Entered(Room::MonsterRoom), fight]
        },
{
    reveal_with_fuel(arrival, 2);
}

/// The player is asked exactly when the session goes on. A reply that
/// leaves the session running ends with the prompt, in a room that has a
/// menu to answer; a reply that ends the session ends with the report of the
/// turn that ended it, and never asks.
pub proof fn lemma_reply_asks_or_ends(session: SessionView, line: Seq<char>)
    ensures
        ({
            let (next, reply) = response(session, line);
            &&& reply.outputs.len() > 0
            &&& !reply.over ==> reply.outputs.last() == OutputView::Prompt
            &&& !reply.over && session.room.menu_len() > 0 ==> next.room.menu_len() > 0
            &&& reply.over ==> (reply.outputs.last() matches OutputView::Report(turn)
                && turn.ends_session())
            &&& reply.over ==> !reply.outputs.contains(OutputView::Prompt)
        }),
{
    if choice_of(line, session.room.menu_len()) is Some {
        lemma_dialogue_table(session, line);
    }
}

/// Whoever is asked is alive. If the player was alive when the line was
/// read and the reply does not end the session, the player is alive after
/// it. So, from the opening on, every line can be answered: a living player
/// can always fight.
pub proof fn lemma_asked_player_is_alive(session: SessionView, line: Seq<char>)
    requires
        session.player.health > 0,
    ensures
        !response(session, line).1.over ==> response(session, line).0.player.health > 0,
{
    reveal_with_fuel(arrival, 2);
}

} // verus!
