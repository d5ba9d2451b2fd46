use vstd::prelude::*;

use crate::dialog::{lines_of, player_line, DialogBoxEvent, DialogBoxMessage, GameCharacter};
use crate::door::{reaction_of, Door, DoorInteraction, DoorReactionKind, DoorStatus};

verus! {

/// The people who live on the floor of the first chapter.
#[derive(Clone, Copy, Debug, PartialEq, Eq, Structural)]
pub enum ChapterCharacter {
    Unknown,
    Neighbor301,
    Neighbor302,
    Neighbor303,
    Neighbor305,
    Neighbor306,
    Neighbor308,
}

impl Default for ChapterCharacter {
    /// Nobody known lives behind a door unless the chapter says so.
    fn default() -> (c: Self)
        ensures
            c == ChapterCharacter::Unknown,
    {
        ChapterCharacter::Unknown
    }
}

impl ChapterCharacter {
    /// The name shown in the dialog box when this character speaks.
    pub open spec fn spec_name(self) -> Seq<char> {
        match self {
            ChapterCharacter::Unknown => "None"@,
            ChapterCharacter::Neighbor301 => "Neighbor on 301"@,
            ChapterCharacter::Neighbor302 => "Neighbor on 302"@,
            ChapterCharacter::Neighbor303 => "Neighbor on 303"@,
            ChapterCharacter::Neighbor305 => "Neighbor on 305"@,
            ChapterCharacter::Neighbor306 => "Neighbor on 306"@,
            ChapterCharacter::Neighbor308 => "Neighbor on 308"@,
        }
    }

    /// The name shown in the dialog box when this character speaks.
    pub fn name(&self) -> (s: String)
        ensures
            s@ == self.spec_name(),
    {
        match self {
            ChapterCharacter::Unknown => "None".to_owned(),
            ChapterCharacter::Neighbor301 => "Neighbor on 301".to_owned(),
            ChapterCharacter::Neighbor302 => "Neighbor on 302".to_owned(),
            ChapterCharacter::Neighbor303 => "Neighbor on 303".to_owned(),
            ChapterCharacter::Neighbor305 => "Neighbor on 305".to_owned(),
            ChapterCharacter::Neighbor306 => "Neighbor on 306".to_owned(),
            ChapterCharacter::Neighbor308 => "Neighbor on 308".to_owned(),
        }
    }
}

/// A line spoken by a character of the chapter, as the dialog box shows it.
pub open spec fn said_by(c: ChapterCharacter, content: Seq<char>) -> (Seq<char>, Seq<char>) {
    (c.spec_name(), content)
}

/// The doors of the first chapter's floor.
#[derive(Clone, Copy, Debug, PartialEq, Eq, Structural)]
pub enum ChapterObject {
    DoorStairs,
    Door301,
    Door302,
    Door303,
    Door304,
    Door305,
    Door306,
    Door307,
    Door308,
}

/// How far the player got in the first chapter.
#[derive(Clone, Copy, Debug, PartialEq, Eq, Structural)]
pub struct ChapterProgress {
    pub initial_monologue: bool,
    pub knocked_on_303: bool,
}

impl Default for ChapterProgress {
    /// Nothing has happened yet.
    fn default() -> (p: Self)
        ensures
            p == (ChapterProgress { initial_monologue: false, knocked_on_303: false }),
    {
        ChapterProgress { initial_monologue: false, knocked_on_303: false }
    }
}

/// A door of the first chapter, with the object it is and the character behind it.
#[derive(Clone, Copy, Debug, PartialEq, Eq, Structural)]
pub struct DoorSpawn {
    pub door: Door,
    pub object: ChapterObject,
    pub character: ChapterCharacter,
}

/// The doors of the first chapter's floor, from the stairs down the hall.
pub open spec fn door_table() -> Seq<DoorSpawn> {
    let knockable = Door { interaction: DoorInteraction::Knock, status: DoorStatus::Locked };
    seq![
        DoorSpawn {
            door: Door { interaction: DoorInteraction::Open, status: DoorStatus::MapLimit },
            object: ChapterObject::DoorStairs,
            character: ChapterCharacter::Unknown,
        },
        DoorSpawn { door: knockable, object: ChapterObject::Door301, character: ChapterCharacter::Neighbor301 },
        DoorSpawn { door: knockable, object: ChapterObject::Door302, character: ChapterCharacter::Neighbor302 },
        DoorSpawn { door: knockable, object: ChapterObject::Door303, character: ChapterCharacter::Neighbor303 },
        DoorSpawn { door: knockable, object: ChapterObject::Door304, character: ChapterCharacter::Unknown },
        DoorSpawn { door: knockable, object: ChapterObject::Door305, character: ChapterCharacter::Neighbor305 },
        DoorSpawn { door: knockable, object: ChapterObject::Door306, character: ChapterCharacter::Neighbor306 },
        DoorSpawn {
            door: Door { interaction: DoorInteraction::Open, status: DoorStatus::Locked },
            object: ChapterObject::Door307,
            character: ChapterCharacter::Unknown,
        },
        DoorSpawn { door: knockable, object: ChapterObject::Door308, character: ChapterCharacter::Neighbor308 },
    ]
}

/// The doors to place on the first chapter's floor, in the order of [`door_table`].
pub fn doors() -> (v: Vec<DoorSpawn>)
    ensures
        v@ == door_table(),
        forall|i: int|
            0 <= i < v@.len() ==> ((#[trigger] v@[i]).object == ChapterObject::Door301 <==> v@[i].character
                == ChapterCharacter::Neighbor301) && (v@[i].object == ChapterObject::Door303
                <==> v@[i].character == ChapterCharacter::Neighbor303),
{
    let mut v: Vec<DoorSpawn> = Vec::new();
    v.push(DoorSpawn { door: Door::map_limit(), object: ChapterObject::DoorStairs, character: ChapterCharacter::Unknown });
    v.push(DoorSpawn { door: Door::knockable(), object: ChapterObject::Door301, character: ChapterCharacter::Neighbor301 });
    v.push(DoorSpawn { door: Door::knockable(), object: ChapterObject::Door302, character: ChapterCharacter::Neighbor302 });
    v.push(DoorSpawn { door: Door::knockable(), object: ChapterObject::Door303, character: ChapterCharacter::Neighbor303 });
    v.push(DoorSpawn { door: Door::knockable(), object: ChapterObject::Door304, character: ChapterCharacter::Unknown });
    v.push(DoorSpawn { door: Door::knockable(), object: ChapterObject::Door305, character: ChapterCharacter::Neighbor305 });
    v.push(DoorSpawn { door: Door::knockable(), object: ChapterObject::Door306, character: ChapterCharacter::Neighbor306 });
    v.push(DoorSpawn { door: Door::locked(), object: ChapterObject::Door307, character: ChapterCharacter::Unknown });
    v.push(DoorSpawn { door: Door::knockable(), object: ChapterObject::Door308, character: ChapterCharacter::Neighbor308 });
    assert(v@ =~= door_table());
    v
}

/// Id of the light in the living room of apartment 307.
pub const LIGHT_307_LIVING: &'static str = "light-307-living";

/// Id of the light in the hall of apartment 307.
pub const LIGHT_307_HALL: &'static str = "light-307-hall";

/// A light of the map; lights with an id can be switched.
#[derive(Debug)]
pub struct Light {
    pub id: String,
    pub is_on: bool,
}

impl View for Light {
    type V = (Seq<char>, bool);

    open spec fn view(&self) -> (Seq<char>, bool) {
        (self.id@, self.is_on)
    }
}

/// A switch that turns the light with the given id on and off.
#[derive(Debug)]
pub struct LightSwitch {
    pub target_id: String,
}

/// A light of the first chapter, and whether a switch for it stands on the wall.
#[derive(Debug)]
pub struct LightSpawn {
    pub light: Light,
    pub has_switch: bool,
}

/// The lights of the first chapter: five hall lights that are on, then the living room and the
/// hall of apartment 307, off and with a switch each.
pub open spec fn light_table() -> Seq<((Seq<char>, bool), bool)> {
    seq![
        ((Seq::<char>::empty(), true), false),
        ((Seq::<char>::empty(), true), false),
        ((Seq::<char>::empty(), true), false),
        ((Seq::<char>::empty(), true), false),
        ((Seq::<char>::empty(), true), false),
        (("light-307-living"@, false), true),
        (("light-307-hall"@, false), true),
    ]
}

fn push_light(v: &mut Vec<LightSpawn>, id: &str, is_on: bool, has_switch: bool)
    ensures
        final(v)@.len() == old(v)@.len() + 1,
        forall|i: int| 0 <= i < old(v)@.len() ==> final(v)@[i] == old(v)@[i],
        final(v)@.last().light@ == (id@, is_on),
        final(v)@.last().has_switch == has_switch,
{
    v.push(LightSpawn { light: Light { id: id.to_owned(), is_on }, has_switch });
}

/// The lights to place in the first chapter, in the order of [`light_table`].
pub fn lights() -> (v: Vec<LightSpawn>)
    ensures
        v@.len() == light_table().len(),
        forall|i: int|
            0 <= i < v@.len() ==> (#[trigger] v@[i]).light@ == light_table()[i].0 && v@[i].has_switch
                == light_table()[i].1,
{
    let mut v: Vec<LightSpawn> = Vec::new();
    let empty = String::new();
    push_light(&mut v, empty.as_str(), true, false);
    push_light(&mut v, empty.as_str(), true, false);
    push_light(&mut v, empty.as_str(), true, false);
    push_light(&mut v, empty.as_str(), true, false);
    push_light(&mut v, empty.as_str(), true, false);
    push_light(&mut v, LIGHT_307_LIVING, false, true);
    push_light(&mut v, LIGHT_307_HALL, false, true);
    v
}

/// The switch that turns the given light on and off.
pub fn switch_for(light: &Light) -> (s: LightSwitch)
    ensures
        s.target_id@ == light.id@,
{
    LightSwitch { target_id: light.id.clone() }
}

/// The index of the first character equal to `target`, if any.
pub fn find_character(characters: &Vec<ChapterCharacter>, target: ChapterCharacter) -> (r: Option<usize>)
    ensures
        r matches Some(i) ==> i < characters@.len() && characters@[i as int] == target && forall|k: int|
            0 <= k < i ==> characters@[k] != target,
        r is None ==> forall|k: int| 0 <= k < characters@.len() ==> characters@[k] != target,
{
    let mut i: usize = 0;
    while i < characters.len()
        invariant
            i <= characters@.len(),
            forall|k: int| 0 <= k < i ==> characters@[k] != target,
        decreases characters.len() - i,
    {
        if characters[i] == target {
            return Some(i);
        }
        i += 1;
    }
    None
}

fn say(v: &mut Vec<DialogBoxMessage>, who: &str, what: &str)
    ensures
        lines_of(final(v)@) == lines_of(old(v)@).push((who@, what@)),
{
    let ghost before = v@;
    v.push(DialogBoxMessage::new(who, what));
    assert(lines_of(v@) =~= lines_of(before).push((who@, what@)));
}

fn player_says(v: &mut Vec<DialogBoxMessage>, what: &str)
    ensures
        lines_of(final(v)@) == lines_of(old(v)@).push(player_line(what@)),
{
    let name = GameCharacter::Player.name();
    say(v, name.as_str(), what);
}

fn character_says(v: &mut Vec<DialogBoxMessage>, who: ChapterCharacter, what: &str)
    ensures
        lines_of(final(v)@) == lines_of(old(v)@).push(said_by(who, what@)),
{
    let name = who.name();
    say(v, name.as_str(), what);
}

/// What happens behind a door the player knocked at.
#[derive(Debug)]
pub enum KnockResponse {
    /// The neighbour opens the door; the spot to talk to them appears.
    OpenDoor { reveal_talk: ChapterCharacter },
    /// The neighbour, or the silence, answers through the door.
    Reply(DialogBoxEvent),
    /// The neighbour answers, and opens once the dialog is closed.
    ReplyThenOpen(DialogBoxEvent),
}

/// The lines said behind the door of a neighbour who does not open.
pub open spec fn knock_reply(c: ChapterCharacter) -> Seq<(Seq<char>, Seq<char>)> {
    match c {
        ChapterCharacter::Neighbor302 => seq![
            said_by(c, "I don't know you, please leave me alone."@),
        ],
        ChapterCharacter::Neighbor303 => seq![said_by(c, "Wait, Just give me a second, I'm coming."@)],
        ChapterCharacter::Neighbor305 => seq![said_by(c, "I don't want to talk to you."@)],
        ChapterCharacter::Neighbor306 => seq![
            said_by(c, "Who is it?"@),
            player_line("Good evening lady! I'm a journalist for..."@),
            said_by(c, "I don't have time for you, go away!"@),
        ],
        ChapterCharacter::Neighbor308 => seq![said_by(c, "I'm busy, go away!"@)],
        _ => seq![player_line("Looks like nobody is here"@)],
    }
}

/// Whether a response is the one given to a knock at the door of `c`.
pub open spec fn knock_response_is(r: KnockResponse, c: ChapterCharacter) -> bool {
    match c {
        ChapterCharacter::Neighbor301 => r == KnockResponse::OpenDoor {
            reveal_talk: ChapterCharacter::Neighbor301,
        },
        ChapterCharacter::Neighbor303 => r matches KnockResponse::ReplyThenOpen(e) && e@ == knock_reply(c),
        _ => r matches KnockResponse::Reply(e) && e@ == knock_reply(c),
    }
}

/// The door after a knock at it: behind a door where nobody lives, the player gives up
/// knocking and tries the handle from then on.
pub open spec fn knocked_door(door: Door, c: ChapterCharacter) -> Door {
    if c == ChapterCharacter::Unknown {
        Door { interaction: DoorInteraction::Open, status: door.status }
    } else {
        door
    }
}

/// The progress after a knock at the door of `c`.
pub open spec fn knocked_progress(p: ChapterProgress, c: ChapterCharacter) -> ChapterProgress {
    if c == ChapterCharacter::Neighbor303 {
        ChapterProgress { knocked_on_303: true, ..p }
    } else {
        p
    }
}

/// Reacts to the knock heard at `door`, behind which lives `character`.
pub fn on_door_knock(character: ChapterCharacter, door: &mut Door, progress: &mut ChapterProgress) -> (r:
    KnockResponse)
    ensures
        knock_response_is(r, character),
        r is ReplyThenOpen <==> character == ChapterCharacter::Neighbor303,
        r is OpenDoor <==> character == ChapterCharacter::Neighbor301,
        r is Reply <==> (character != ChapterCharacter::Neighbor301 && character
            != ChapterCharacter::Neighbor303),
        *final(door) == knocked_door(*old(door), character),
        *final(progress) == knocked_progress(*old(progress), character),
{
    let mut lines: Vec<DialogBoxMessage> = Vec::new();
    assert(lines_of(lines@) =~= Seq::<(Seq<char>, Seq<char>)>::empty());
    match character {
        ChapterCharacter::Neighbor301 => {
            return KnockResponse::OpenDoor { reveal_talk: ChapterCharacter::Neighbor301 };
        },
        ChapterCharacter::Neighbor302 => {
            character_says(&mut lines, character, "I don't know you, please leave me alone.");
        },
        ChapterCharacter::Neighbor303 => {
            character_says(&mut lines, character, "Wait, Just give me a second, I'm coming.");
            progress.knocked_on_303 = true;
            let e = DialogBoxEvent::with_messages(lines);
            assert(e@ =~= knock_reply(character));
            return KnockResponse::ReplyThenOpen(e);
        },
        ChapterCharacter::Neighbor305 => {
            character_says(&mut lines, character, "I don't want to talk to you.");
        },
        ChapterCharacter::Neighbor306 => {
            character_says(&mut lines, character, "Who is it?");
            player_says(&mut lines, "Good evening lady! I'm a journalist for...");
            character_says(&mut lines, character, "I don't have time for you, go away!");
        },
        ChapterCharacter::Neighbor308 => {
            character_says(&mut lines, character, "I'm busy, go away!");
        },
        ChapterCharacter::Unknown => {
            player_says(&mut lines, "Looks like nobody is here");
            door.interaction = DoorInteraction::Open;
        },
    }
    let e = DialogBoxEvent::with_messages(lines);
    assert(e@ =~= knock_reply(character));
    KnockResponse::Reply(e)
}

/// What happens when the player talks to a neighbour.
#[derive(Debug)]
pub struct TalkResponse {
    /// The conversation.
    pub dialog: DialogBoxEvent,
    /// The neighbour closes the door once the conversation is over.
    pub close_door_after: bool,
}

/// The conversation with a neighbour who opened the door, if they talk.
pub open spec fn talk_lines(c: ChapterCharacter) -> Option<Seq<(Seq<char>, Seq<char>)>> {
    let intro = "Good evening sir! I'm a journalist for the Macondo Gazette, and I'm writing about Martinez family disappearing..."@;
    let ask = "I would like to ask you a few questions."@;
    match c {
        ChapterCharacter::Neighbor301 => Some(
            seq![
                said_by(c, "Hello! How can I help you?"@),
                player_line(intro),
                player_line(ask),
                said_by(c, "Ok."@),
            ],
        ),
        ChapterCharacter::Neighbor303 => Some(
            seq![
                said_by(c, "Yes? Who are you? What do you want?"@),
                player_line(intro),
                player_line(ask),
                said_by(c, "I'm a little busy right now."@),
                player_line("It will take just a few seconds."@),
                said_by(c, "Al right, but make it quick."@),
                player_line("How well do you know Martinez family?"@),
                said_by(c, "I like to think that I'm very close to them."@),
                player_line("Do you have some clue where they could be?"@),
                said_by(
                    c,
                    "They always tell me when they have to leave town for a few days, but this time they just left without any notice."@,
                ),
                player_line("Interesting."@),
                said_by(
                    c,
                    "I actually have a key they gave me to take care of their when they are out of town."@,
                ),
                player_line(
                    "Really? Could you give me access to their apartment, so I can take some pictures?."@,
                ),
            ],
        ),
        _ => None,
    }
}

/// Reacts to the player talking to `character`: the conversation, if they talk, and whether
/// they close their door once it is over.
pub fn on_talk(character: ChapterCharacter) -> (r: Option<TalkResponse>)
    ensures
        talk_lines(character) is None <==> r is None,
        r matches Some(t) ==> Some(t.dialog@) == talk_lines(character) && t.close_door_after == (
        character == ChapterCharacter::Neighbor303),
{
    let intro = "Good evening sir! I'm a journalist for the Macondo Gazette, and I'm writing about Martinez family disappearing...";
    let ask = "I would like to ask you a few questions.";
    let mut lines: Vec<DialogBoxMessage> = Vec::new();
    assert(lines_of(lines@) =~= Seq::<(Seq<char>, Seq<char>)>::empty());
    match character {
        ChapterCharacter::Neighbor301 => {
            character_says(&mut lines, character, "Hello! How can I help you?");
            player_says(&mut lines, intro);
            player_says(&mut lines, ask);
            character_says(&mut lines, character, "Ok.");
            let dialog = DialogBoxEvent::with_messages(lines);
            assert(dialog@ =~= talk_lines(character)->0);
            Some(TalkResponse { dialog, close_door_after: false })
        },
        ChapterCharacter::Neighbor303 => {
            character_says(&mut lines, character, "Yes? Who are you? What do you want?");
            player_says(&mut lines, intro);
            player_says(&mut lines, ask);
            character_says(&mut lines, character, "I'm a little busy right now.");
            player_says(&mut lines, "It will take just a few seconds.");
            character_says(&mut lines, character, "Al right, but make it quick.");
            player_says(&mut lines, "How well do you know Martinez family?");
            character_says(&mut lines, character, "I like to think that I'm very close to them.");
            player_says(&mut lines, "Do you have some clue where they could be?");
            character_says(
                &mut lines,
                character,
                "They always tell me when they have to leave town for a few days, but this time they just left without any notice.",
            );
            player_says(&mut lines, "Interesting.");
            character_says(
                &mut lines,
                character,
                "I actually have a key they gave me to take care of their when they are out of town.",
            );
            player_says(
                &mut lines,
                "Really? Could you give me access to their apartment, so I can take some pictures?.",
            );
            let dialog = DialogBoxEvent::with_messages(lines);
            assert(dialog@ =~= talk_lines(character)->0);
            Some(TalkResponse { dialog, close_door_after: true })
        },
        _ => None,
    }
}

/// The monologue the player says when the chapter begins.
pub open spec fn monologue_lines() -> Seq<(Seq<char>, Seq<char>)> {
    seq![
        player_line(
            "The Martinez family has been missing for a month now, but finally I found a way into their building..."@,
        ),
        player_line(
            "I've been told that one of their neighbors has a spare key to access their apartment..."@,
        ),
    ]
}

/// Whether the opening monologue is still to be said: nothing has happened yet.
pub open spec fn spec_monologue_due(p: ChapterProgress) -> bool {
    !p.initial_monologue && !p.knocked_on_303
}

impl ChapterProgress {
    /// Whether the opening monologue is still to be said: nothing has happened yet.
    pub fn monologue_due(&self) -> (r: bool)
        ensures
            r == spec_monologue_due(*self),
    {
        !self.initial_monologue && !self.knocked_on_303
    }

    /// Says the opening monologue, and records that it was said.
    pub fn show_initial_monologue(&mut self) -> (e: DialogBoxEvent)
        ensures
            e@ == monologue_lines(),
            *final(self) == (ChapterProgress { initial_monologue: true, ..*old(self) }),
    {
        let mut lines: Vec<DialogBoxMessage> = Vec::new();
        assert(lines_of(lines@) =~= Seq::<(Seq<char>, Seq<char>)>::empty());
        player_says(
            &mut lines,
            "The Martinez family has been missing for a month now, but finally I found a way into their building...",
        );
        player_says(
            &mut lines,
            "I've been told that one of their neighbors has a spare key to access their apartment...",
        );
        self.initial_monologue = true;
        let e = DialogBoxEvent::with_messages(lines);
        assert(e@ =~= monologue_lines());
        e
    }
}

/// A knock never opens or unlocks a door by itself: its status stays as it was.
pub proof fn lemma_knock_keeps_status(door: Door, c: ChapterCharacter)
    ensures
        knocked_door(door, c).status == door.status,
{
}

/// Knocking at a locked door where nobody lives turns it into a door the player tries to open:
/// the next press of the interaction key says it is locked instead of knocking again. A
/// knockable door where someone lives stays knockable.
pub proof fn lemma_empty_apartment_stops_knocking(c: ChapterCharacter)
    ensures
        ({
            let door = Door { interaction: DoorInteraction::Knock, status: DoorStatus::Locked };
            &&& reaction_of(door) == DoorReactionKind::Knock
            &&& c == ChapterCharacter::Unknown ==> reaction_of(knocked_door(door, c))
                == DoorReactionKind::SayLocked
            &&& c != ChapterCharacter::Unknown ==> reaction_of(knocked_door(door, c))
                == DoorReactionKind::Knock
        }),
{
}

/// Progress only moves forward: a knock records the knock at 303 and forgets nothing, so once
/// the opening monologue has been said, or 303 knocked at, the monologue is never due again,
/// whatever the player knocks at.
pub proof fn lemma_progress_only_grows(p: ChapterProgress, c: ChapterCharacter)
    ensures
        p.initial_monologue ==> knocked_progress(p, c).initial_monologue,
        p.knocked_on_303 ==> knocked_progress(p, c).knocked_on_303,
        c == ChapterCharacter::Neighbor303 ==> knocked_progress(p, c).knocked_on_303,
        !spec_monologue_due(p) ==> !spec_monologue_due(knocked_progress(p, c)),
        !spec_monologue_due(ChapterProgress { initial_monologue: true, ..p }),
{
}

/// The floor of the first chapter: the doors stand for distinct objects; the two neighbours who
/// talk live behind knockable doors; only the stairs lead out of the map.
pub proof fn lemma_door_table_consistent()
    ensures
        door_table().len() == 9,
        forall|i: int, j: int|
            0 <= i < j < door_table().len() ==> (#[trigger] door_table()[i]).object
                != (#[trigger] door_table()[j]).object,
        forall|i: int|
            0 <= i < door_table().len() && (#[trigger] talk_lines(door_table()[i].character)) is Some
                ==> door_table()[i].door == (Door {
                interaction: DoorInteraction::Knock,
                status: DoorStatus::Locked,
            }),
        forall|i: int|
            0 <= i < door_table().len() && (#[trigger] door_table()[i]).door.status
                == DoorStatus::MapLimit ==> door_table()[i].object == ChapterObject::DoorStairs,
{
    let t = door_table();
    assert(t[0].object == ChapterObject::DoorStairs);
    assert(t[1].object == ChapterObject::Door301);
    assert(t[2].object == ChapterObject::Door302);
    assert(t[3].object == ChapterObject::Door303);
    assert(t[4].object == ChapterObject::Door304);
    assert(t[5].object == ChapterObject::Door305);
    assert(t[6].object == ChapterObject::Door306);
    assert(t[7].object == ChapterObject::Door307);
    assert(t[8].object == ChapterObject::Door308);
}


/// Only the neighbour of 303 opens once the dialog is over, and only the neighbour of 301 opens
/// at once; everyone else, and the silence of an empty apartment, only answers through the door.
pub proof fn lemma_only_303_opens_after_reply(r: KnockResponse, c: ChapterCharacter)
    requires
        knock_response_is(r, c),
    ensures
        r is ReplyThenOpen <==> c == ChapterCharacter::Neighbor303,
        r is OpenDoor <==> c == ChapterCharacter::Neighbor301,
        (c != ChapterCharacter::Neighbor301 && c != ChapterCharacter::Neighbor303) ==> r is Reply,
{
}

/// Each door of the floor hides the neighbour of its own apartment: 301, 302, 303, 305, 306 and
/// 308 each behind their door, nobody behind the stairs, 304 and 307; so every neighbour who
/// talks stands behind some door.
pub proof fn lemma_each_door_hides_its_neighbour()
    ensures
        forall|i: int|
            0 <= i < door_table().len() ==> {
                let d = #[trigger] door_table()[i];
                &&& d.object == ChapterObject::Door301 <==> d.character == ChapterCharacter::Neighbor301
                &&& d.object == ChapterObject::Door302 <==> d.character == ChapterCharacter::Neighbor302
                &&& d.object == ChapterObject::Door303 <==> d.character == ChapterCharacter::Neighbor303
                &&& d.object == ChapterObject::Door305 <==> d.character == ChapterCharacter::Neighbor305
                &&& d.object == ChapterObject::Door306 <==> d.character == ChapterCharacter::Neighbor306
                &&& d.object == ChapterObject::Door308 <==> d.character == ChapterCharacter::Neighbor308
                &&& (d.object == ChapterObject::DoorStairs || d.object == ChapterObject::Door304
                    || d.object == ChapterObject::Door307) ==> d.character == ChapterCharacter::Unknown
            },
        forall|c: ChapterCharacter|
            (#[trigger] talk_lines(c)) is Some ==> exists|i: int|
                0 <= i < door_table().len() && door_table()[i].character == c,
{
    let t = door_table();
    assert(t[1].character == ChapterCharacter::Neighbor301);
    assert(t[3].character == ChapterCharacter::Neighbor303);
    assert forall|c: ChapterCharacter| (#[trigger] talk_lines(c)) is Some implies exists|i: int|
        0 <= i < door_table().len() && door_table()[i].character == c by {
        if c == ChapterCharacter::Neighbor301 {
            assert(door_table()[1].character == c);
        } else {
            assert(door_table()[3].character == c);
        }
    }
}

} // verus!
