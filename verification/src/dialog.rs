use vstd::prelude::*;

verus! {

/// Characters that exist in every chapter.
#[derive(Clone, Copy, Debug, PartialEq, Eq, Structural)]
pub enum GameCharacter {
    Player,
}

impl GameCharacter {
    /// The name shown in the dialog box for this character.
    pub open spec fn spec_name(self) -> Seq<char> {
        match self {
            GameCharacter::Player => "You"@,
        }
    }

    /// The name shown in the dialog box for this character.
    pub fn name(&self) -> (s: String)
        ensures
            s@ == self.spec_name(),
    {
        match self {
            GameCharacter::Player => "You".to_owned(),
        }
    }
}

/// The (speaker, text) pair that the dialog box shows for a line spoken by the player.
pub open spec fn player_line(content: Seq<char>) -> (Seq<char>, Seq<char>) {
    (GameCharacter::Player.spec_name(), content)
}

/// One line of a dialog: who speaks, and what is said.
#[derive(Debug)]
pub struct DialogBoxMessage {
    pub character: String,
    pub content: String,
}

impl View for DialogBoxMessage {
    type V = (Seq<char>, Seq<char>);

    open spec fn view(&self) -> (Seq<char>, Seq<char>) {
        (self.character@, self.content@)
    }
}

impl Clone for DialogBoxMessage {
    fn clone(&self) -> (m: Self)
        ensures
            m == *self,
    {
        DialogBoxMessage { character: self.character.clone(), content: self.content.clone() }
    }
}

impl DialogBoxMessage {
    /// A line spoken by the named character.
    pub fn new(character: &str, content: &str) -> (m: Self)
        ensures
            m@ == (character@, content@),
    {
        DialogBoxMessage { character: character.to_owned(), content: content.to_owned() }
    }

    /// A line spoken by the player.
    pub fn player(content: &str) -> (m: Self)
        ensures
            m@ == player_line(content@),
    {
        let name = GameCharacter::Player.name();
        Self::new(name.as_str(), content)
    }
}

/// The lines of a sequence of messages, each as a (speaker, text) pair.
pub open spec fn lines_of(messages: Seq<DialogBoxMessage>) -> Seq<(Seq<char>, Seq<char>)> {
    messages.map_values(|m: DialogBoxMessage| m@)
}

/// A request to show a dialog made of several lines, in order.
#[derive(Debug)]
pub struct DialogBoxEvent {
    pub messages: Vec<DialogBoxMessage>,
}

impl View for DialogBoxEvent {
    type V = Seq<(Seq<char>, Seq<char>)>;

    open spec fn view(&self) -> Seq<(Seq<char>, Seq<char>)> {
        lines_of(self.messages@)
    }
}

impl Default for DialogBoxEvent {
    fn default() -> (e: Self)
        ensures
            e.messages@ == Seq::<DialogBoxMessage>::empty(),
    {
        DialogBoxEvent { messages: Vec::new() }
    }
}

impl DialogBoxEvent {
    /// A dialog made of one line.
    pub fn with_message(message: DialogBoxMessage) -> (e: Self)
        ensures
            e.messages@ == seq![message],
    {
        let mut event = Self::default();
        event.messages.push(message);
        event
    }

    /// A dialog made of the given lines, in the given order.
    pub fn with_messages(messages: Vec<DialogBoxMessage>) -> (e: Self)
        ensures
            e.messages@ == messages@,
    {
        let mut messages = messages;
        let mut event = Self::default();
        event.messages.append(&mut messages);
        event
    }
}

/// The lines of the dialog that is open, the one on screen first.
#[derive(Debug)]
pub struct DialogBoxMessages(pub Vec<DialogBoxMessage>);

impl View for DialogBoxMessages {
    type V = Seq<DialogBoxMessage>;

    open spec fn view(&self) -> Seq<DialogBoxMessage> {
        self.0@
    }
}

impl Default for DialogBoxMessages {
    fn default() -> (q: Self)
        ensures
            q@ == Seq::<DialogBoxMessage>::empty(),
    {
        DialogBoxMessages(Vec::new())
    }
}

/// The lines left after the player asks for the next one: the first line goes, if there is one.
pub open spec fn after_continue(q: Seq<DialogBoxMessage>) -> Seq<DialogBoxMessage> {
    if q.len() > 0 {
        q.drop_first()
    } else {
        q
    }
}

/// The lines left after the player asks `n` times for the next one.
pub open spec fn after_continues(q: Seq<DialogBoxMessage>, n: nat) -> Seq<DialogBoxMessage>
    decreases n,
{
    if n == 0 {
        q
    } else {
        after_continue(after_continues(q, (n - 1) as nat))
    }
}

impl DialogBoxMessages {
    /// Opens the dialog of an event: its lines replace whatever was queued.
    pub fn from_event(event: DialogBoxEvent) -> (q: Self)
        ensures
            q@ == event.messages@,
    {
        DialogBoxMessages(event.messages)
    }

    /// The line to show, if any line is queued: the dialog box then opens on it.
    pub fn current(&self) -> (m: Option<&DialogBoxMessage>)
        ensures
            self@.len() > 0 ==> m == Some(&self@[0]),
            self@.len() == 0 ==> m is None,
    {
        if self.0.len() > 0 {
            Some(&self.0[0])
        } else {
            None
        }
    }

    /// The player asked for the next line; returns whether the dialog is now over.
    pub fn advance(&mut self) -> (closed: bool)
        ensures
            final(self)@ == after_continue(old(self)@),
            closed <==> final(self)@.len() == 0,
    {
        if self.0.len() > 0 {
            self.0.remove(0);
        }
        self.0.len() == 0
    }

    /// The continue button was polled, pressed or not; returns whether the dialog is now over.
    pub fn advance_on_button(&mut self, pressed: bool) -> (closed: bool)
        ensures
            final(self)@ == (if pressed { after_continue(old(self)@) } else { old(self)@ }),
            closed <==> final(self)@.len() == 0,
    {
        if pressed && self.0.len() > 0 {
            self.0.remove(0);
        }
        self.0.len() == 0
    }
}

/// A dialog of `q.len()` lines shows them in order: after `n` requests for the next line
/// (no more than there are lines), the lines left are those from the `n`-th on, and the
/// dialog is over exactly when every line has been shown.
pub proof fn lemma_dialog_shows_lines_in_order(q: Seq<DialogBoxMessage>, n: nat)
    requires
        n <= q.len(),
    ensures
        after_continues(q, n) == q.skip(n as int),
        after_continues(q, n).len() == 0 <==> n == q.len(),
        n < q.len() ==> after_continues(q, n)[0] == q[n as int],
    decreases n,
{
    if n > 0 {
        lemma_dialog_shows_lines_in_order(q, (n - 1) as nat);
        assert(q.skip(n - 1).drop_first() =~= q.skip(n as int));
    } else {
        assert(q.skip(0) =~= q);
    }
}

/// Once a dialog is over, asking for a next line changes nothing.
pub proof fn lemma_dialog_stays_closed(q: Seq<DialogBoxMessage>, n: nat)
    requires
        n >= q.len(),
    ensures
        after_continues(q, n).len() == 0,
    decreases n,
{
    if n > q.len() {
        lemma_dialog_stays_closed(q, (n - 1) as nat);
    } else {
        lemma_dialog_shows_lines_in_order(q, n);
    }
}

} // verus!
