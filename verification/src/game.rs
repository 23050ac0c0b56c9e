use vstd::prelude::*;
use std::collections::VecDeque;
use crate::geom::Vec2d;
use crate::region::RegionHolder;
use crate::tilemap::MapId;

verus! {

/// Whose move it is.
#[derive(Clone, Copy, Debug, PartialEq, Eq, Structural)]
pub enum GameState {
    /// The world moves until the player can act again.
    WaitingForNextTurn,
    PlayerTurn,
}

/// The address of a character: the player, or a character on some grid.
#[derive(Clone, Copy, Debug, PartialEq, Eq, Hash, Structural)]
pub enum CharaId {
    Player,
    OnMap { mid: MapId, n: u32 },
}

/// A line of talk, by its number in the running script, with the number of answers offered.
#[derive(Clone, Copy, Debug, PartialEq, Eq, Structural)]
pub struct TalkText {
    pub section: u32,
    pub choices: u32,
}

/// Where an item lies: the list that holds it and its place in that list.
#[derive(Clone, Copy, Debug, PartialEq, Eq, Structural)]
pub struct ItemLocation {
    pub list: u32,
    pub n: u32,
}

/// Something to show on the grid before play goes on.
#[derive(Clone, Copy, Debug, PartialEq, Eq, Structural)]
pub enum Animation {
    Attack { from: Vec2d, to: Vec2d },
    Shot { from: Vec2d, to: Vec2d },
    Destroy { at: Vec2d },
}

/// A dialog that the front end is asked to open.
#[allow(inconsistent_fields)]
#[derive(Debug, PartialEq, Eq)]
pub enum DialogOpenRequest {
    YesNo { msg: String },
    Talk { cid: Option<CharaId>, talk_text: TalkText },
    ItemInfo { il: ItemLocation },
    ShopBuy { cid: CharaId },
    ShopSell,
    PickUpItem,
    Quest,
    GameOver,
}

/// What one step of a script came to.
#[derive(Clone, Copy, Debug, PartialEq, Eq, Structural)]
pub enum ExecResult {
    /// A line of talk for a character; the flag says whether the talk dialog must be opened.
    Talk(Option<CharaId>, TalkText, bool),
    ShopBuy(CharaId),
    ShopSell,
    Quest,
    Quit,
}

/// What the caller of `advance_script` does next.
#[derive(Debug, PartialEq, Eq)]
pub enum AdvanceScriptResult {
    Continue,
    UpdateTalkText(TalkText),
    Quit,
}

/// The script that is running: its name and the character who speaks.
#[derive(Debug, PartialEq, Eq)]
pub struct ScriptEngine {
    pub id: String,
    pub cid: Option<CharaId>,
}

impl ScriptEngine {
    /// The script of the given name, spoken by the given character, before its first step.
    pub fn new(id: &str, cid: Option<CharaId>) -> (s: ScriptEngine)
        ensures
            s.id@ == id@,
            s.cid == cid,
    {
        ScriptEngine { id: id.to_string(), cid }
    }
}

/// The animations that wait to be shown, oldest first.
#[derive(Debug)]
pub struct AnimQueue(VecDeque<Animation>);

impl View for AnimQueue {
    type V = Seq<Animation>;

    closed spec fn view(&self) -> Seq<Animation> {
        self.0@
    }
}

impl Default for AnimQueue {
    /// The queue with nothing in it.
    fn default() -> (q: AnimQueue)
        ensures
            q@ == Seq::<Animation>::empty(),
    {
        AnimQueue(VecDeque::new())
    }
}

impl AnimQueue {
    /// Puts an animation behind the others.
    pub fn push(&mut self, animation: Animation)
        ensures
            final(self)@ == old(self)@.push(animation),
    {
        self.0.push_back(animation);
    }

    /// Takes the oldest animation out, if there is one.
    pub fn pop(&mut self) -> (a: Option<Animation>)
        ensures
            old(self)@.len() == 0 ==> a.is_none() && final(self)@ == old(self)@,
            old(self)@.len() > 0 ==> a == Some(old(self)@[0]) && final(self)@ == old(self)@.drop_first(),
    {
        self.0.pop_front()
    }
}

/// The data of a game that is saved and loaded.
pub struct GameData {
    pub region: RegionHolder,
}

impl GameData {
    /// The data of a game in which nothing exists yet.
    pub fn empty() -> (gd: GameData)
        ensures
            gd.region@ == Map::<crate::region::RegionId, crate::region::Region>::empty(),
            gd.region.wf(),
            gd.region.holds_first(0),
    {
        GameData { region: RegionHolder::new() }
    }
}

/// A game in play: the saved data and what lives only while the program runs.
pub struct Game {
    pub gd: GameData,
    state: GameState,
    anim_queue: AnimQueue,
    dialog_open_request: Option<DialogOpenRequest>,
    script: Option<ScriptEngine>,
    /// The character that the player's shots and similar actions aim at.
    target_chara: Option<CharaId>,
}

/// The name of the script that opens a new game.
pub open spec fn start_script_id() -> Seq<char> {
    "!start"@
}

impl Game {
    /// Whose move it is.
    pub closed spec fn state(&self) -> GameState {
        self.state
    }

    /// The animations that wait to be shown, oldest first.
    pub closed spec fn animations(&self) -> Seq<Animation> {
        self.anim_queue@
    }

    /// The dialog that waits to be opened, if there is one.
    pub closed spec fn request(&self) -> Option<DialogOpenRequest> {
        self.dialog_open_request
    }

    /// The script that is running, if there is one.
    pub closed spec fn script(&self) -> Option<ScriptEngine> {
        self.script
    }

    /// The character that the player aims at, if there is one.
    pub closed spec fn target(&self) -> Option<CharaId> {
        self.target_chara
    }

    /// The saved data.
    pub closed spec fn data(&self) -> GameData {
        self.gd
    }

    /// Whether this game is `prev` but for the waiting dialog and the running script.
    pub open spec fn same_but_dialog(&self, prev: Game) -> bool {
        &&& self.state() == prev.state()
        &&& self.animations() == prev.animations()
        &&& self.target() == prev.target()
        &&& self.data() == prev.data()
    }

    /// The dialog that waits after a script step with the given outcome.
    pub open spec fn request_after(prev: Option<DialogOpenRequest>, result: ExecResult) -> Option<
        DialogOpenRequest,
    > {
        match result {
            ExecResult::Quit => prev,
            ExecResult::Talk(cid, talk_text, open) => if open {
                Some(DialogOpenRequest::Talk { cid, talk_text })
            } else {
                prev
            },
            ExecResult::ShopBuy(cid) => Some(DialogOpenRequest::ShopBuy { cid }),
            ExecResult::ShopSell => Some(DialogOpenRequest::ShopSell),
            ExecResult::Quest => Some(DialogOpenRequest::Quest),
        }
    }

    /// What the caller is told after a script step with the given outcome.
    pub open spec fn answer_after(result: ExecResult) -> AdvanceScriptResult {
        match result {
            ExecResult::Quit => AdvanceScriptResult::Quit,
            ExecResult::Talk(_, talk_text, _) => AdvanceScriptResult::UpdateTalkText(talk_text),
            _ => AdvanceScriptResult::Continue,
        }
    }

    /// A game on the given data: it is the player's turn, nothing waits and no script runs.
    pub fn new(gd: GameData) -> (g: Game)
        ensures
            g.data() == gd,
            g.state() == GameState::PlayerTurn,
            g.animations() == Seq::<Animation>::empty(),
            g.request().is_none(),
            g.script().is_none(),
            g.target().is_none(),
    {
        Game {
            gd,
            state: GameState::PlayerTurn,
            anim_queue: AnimQueue::default(),
            dialog_open_request: None,
            script: None,
            target_chara: None,
        }
    }

    /// A game before play starts: it is the player's turn, nothing waits and no script runs.
    pub fn empty() -> (g: Game)
        ensures
            g.state() == GameState::PlayerTurn,
            g.animations() == Seq::<Animation>::empty(),
            g.request().is_none(),
            g.script().is_none(),
            g.target().is_none(),
            g.data().region.wf(),
            g.data().region.holds_first(0),
    {
        Game {
            gd: GameData::empty(),
            state: GameState::PlayerTurn,
            anim_queue: AnimQueue::default(),
            dialog_open_request: None,
            script: None,
            target_chara: None,
        }
    }

    /// Whose move it is.
    pub fn get_state(&self) -> (s: GameState)
        ensures
            s == self.state(),
    {
        self.state
    }

    /// Whether a script is running.
    pub fn script_running(&self) -> (b: bool)
        ensures
            b == self.script().is_some(),
    {
        self.script.is_some()
    }

    /// Ends the player's turn, which it must be.
    pub fn finish_player_turn(&mut self)
        requires
            old(self).state() == GameState::PlayerTurn,
        ensures
            final(self).state() == GameState::WaitingForNextTurn,
            final(self).animations() == old(self).animations(),
            final(self).request() == old(self).request(),
            final(self).script() == old(self).script(),
            final(self).target() == old(self).target(),
            final(self).data() == old(self).data(),
    {
        self.state = GameState::WaitingForNextTurn;
    }

    /// Puts an animation behind those that wait.
    pub fn push_animation(&mut self, animation: Animation)
        ensures
            final(self).animations() == old(self).animations().push(animation),
            final(self).state() == old(self).state(),
            final(self).request() == old(self).request(),
            final(self).script() == old(self).script(),
            final(self).target() == old(self).target(),
            final(self).data() == old(self).data(),
    {
        self.anim_queue.push(animation);
    }

    /// Takes out the oldest animation that waits, if there is one.
    pub fn pop_animation(&mut self) -> (a: Option<Animation>)
        ensures
            old(self).animations().len() == 0 ==> a.is_none() && final(self).animations() == old(self).animations(),
            old(self).animations().len() > 0 ==> a == Some(old(self).animations()[0]) && final(self).animations() == old(self).animations().drop_first(),
            final(self).state() == old(self).state(),
            final(self).request() == old(self).request(),
            final(self).script() == old(self).script(),
            final(self).target() == old(self).target(),
            final(self).data() == old(self).data(),
    {
        self.anim_queue.pop()
    }

    /// Asks for a dialog to be opened. A request that still waits is replaced.
    pub fn request_dialog_open(&mut self, req: DialogOpenRequest)
        ensures
            final(self).request() == Some(req),
            final(self).script() == old(self).script(),
            final(self).same_but_dialog(*old(self)),
    {
        self.dialog_open_request = Some(req);
    }

    /// Takes out the dialog that waits to be opened, if there is one.
    pub fn pop_dialog_open_request(&mut self) -> (req: Option<DialogOpenRequest>)
        ensures
            req == old(self).request(),
            final(self).request().is_none(),
            final(self).script() == old(self).script(),
            final(self).same_but_dialog(*old(self)),
    {
        self.dialog_open_request.take()
    }

    /// Makes the script of the given name the running one, before its first step.
    pub fn start_script(&mut self, id: &str, cid: Option<CharaId>)
        ensures
            final(self).script().is_some(),
            final(self).script().unwrap().id@ == id@,
            final(self).script().unwrap().cid == cid,
            final(self).request() == old(self).request(),
            final(self).same_but_dialog(*old(self)),
    {
        self.script = Some(ScriptEngine::new(id, cid));
    }

    /// Takes in the outcome of one step of the running script: the script ends on `Quit`, a
    /// dialog is asked for where the outcome needs one, and the caller is told how to go on.
    pub fn advance_script(&mut self, result: ExecResult) -> (answer: AdvanceScriptResult)
        requires
            old(self).script().is_some(),
        ensures
            answer == Self::answer_after(result),
            final(self).request() == Self::request_after(old(self).request(), result),
            final(self).script() == (if result == ExecResult::Quit {
                None
            } else {
                old(self).script()
            }),
            final(self).same_but_dialog(*old(self)),
    {
        match result {
            ExecResult::Quit => {
                self.script = None;
                AdvanceScriptResult::Quit
            },
            ExecResult::Talk(cid, talk_text, need_open_talk_dialog) => {
                if need_open_talk_dialog {
                    self.request_dialog_open(DialogOpenRequest::Talk { cid, talk_text });
                }
                AdvanceScriptResult::UpdateTalkText(talk_text)
            },
            ExecResult::ShopBuy(cid) => {
                self.request_dialog_open(DialogOpenRequest::ShopBuy { cid });
                AdvanceScriptResult::Continue
            },
            ExecResult::ShopSell => {
                self.request_dialog_open(DialogOpenRequest::ShopSell);
                AdvanceScriptResult::Continue
            },
            ExecResult::Quest => {
                self.request_dialog_open(DialogOpenRequest::Quest);
                AdvanceScriptResult::Continue
            },
        }
    }

    /// Aims at the character that stands on the tile the player chose, if one stands there,
    /// and says whether one did. Without one the aim stays where it was.
    pub fn set_target(&mut self, found: Option<CharaId>) -> (hit: bool)
        ensures
            hit == found.is_some(),
            final(self).target() == (if found.is_some() {
                found
            } else {
                old(self).target()
            }),
            final(self).state() == old(self).state(),
            final(self).animations() == old(self).animations(),
            final(self).request() == old(self).request(),
            final(self).script() == old(self).script(),
            final(self).data() == old(self).data(),
    {
        match found {
            Some(cid) => {
                self.target_chara = Some(cid);
                true
            },
            None => false,
        }
    }

    /// The character that the player aims at, if there is one.
    pub fn get_target(&self) -> (t: Option<CharaId>)
        ensures
            t == self.target(),
    {
        self.target_chara
    }

    /// Starts a new game: where the opening script exists, it becomes the running one.
    pub fn start_new_game(&mut self, has_start_script: bool)
        ensures
            has_start_script ==> final(self).script().is_some() && final(self).script().unwrap().id@
                == start_script_id() && final(self).script().unwrap().cid.is_none(),
            !has_start_script ==> final(self).script() == old(self).script(),
            final(self).request() == old(self).request(),
            final(self).same_but_dialog(*old(self)),
    {
        if has_start_script {
            self.start_script("!start", None);
        }
    }
}

} // verus!
