//! A one-line text input with a cursor.

use vstd::prelude::*;
use vstd::std_specs::iter::IteratorSpec;

verus! {

/// A key press, as far as text input and wizards tell keys apart.
#[derive(Clone, Copy, Debug, PartialEq, Eq, Structural)]
pub enum Key {
    Enter,
    Esc,
    Backspace,
    Delete,
    Left,
    Right,
    Up,
    Down,
    Home,
    End,
    Char(char),
    /// Any key that text input has no use for.
    Other,
}

/// `String::push` of std appends the character to the end of the string.
pub assume_specification[ String::push ](text: &mut String, c: char)
    ensures
        final(text)@ == old(text)@.push(c),
;

/// The characters of a text.
pub fn chars_of(text: &str) -> (chars: Vec<char>)
    ensures
        chars@ == text@,
{
    let mut chars: Vec<char> = Vec::new();
    for c in it: text.chars()
        invariant
            chars@ == it.seq().take(it.index() as int),
            it.seq() == text@,
    {
        chars.push(c);
    }
    chars
}

/// The text made of the characters.
pub fn string_of(chars: &Vec<char>) -> (text: String)
    ensures
        text@ == chars@,
{
    let mut text = String::new();
    let mut i: usize = 0;
    while i < chars.len()
        invariant
            i <= chars.len(),
            text@ == chars@.take(i as int),
        decreases chars.len() - i,
    {
        text.push(chars[i]);
        proof {
            assert(chars@.take(i + 1) =~= chars@.take(i as int).push(chars@[i as int]));
        }
        i += 1;
    }
    proof {
        assert(chars@.take(i as int) =~= chars@);
    }
    text
}

/// What a text input holds: the prompt shown before it, the text typed so
/// far, and the position in the text where the next character goes.
pub struct InputModel {
    pub prompt: Seq<char>,
    pub text: Seq<char>,
    pub cursor: nat,
}

impl InputModel {
    /// The cursor is inside the text or right behind it.
    pub open spec fn wf(self) -> bool {
        self.cursor <= self.text.len()
    }

    /// An input holding `value`, with the cursor behind it.
    pub open spec fn with_value(prompt: Seq<char>, value: Seq<char>) -> InputModel {
        InputModel { prompt, text: value, cursor: value.len() }
    }

    /// Whether the key changes text or cursor.
    pub open spec fn responds_to(self, key: Key) -> bool {
        match key {
            Key::Char(_) => true,
            Key::Backspace | Key::Left | Key::Home => self.cursor > 0,
            Key::Delete | Key::Right | Key::End => self.cursor < self.text.len(),
            Key::Enter | Key::Esc | Key::Up | Key::Down | Key::Other => false,
        }
    }

    /// The input after the key: a character is inserted at the cursor,
    /// backspace removes the character before the cursor and delete the one
    /// under it, the arrows move by one and stop at either end, home and end
    /// jump there. A key that has nothing to act on changes nothing.
    pub open spec fn handle_key(self, key: Key) -> InputModel {
        if !self.responds_to(key) {
            self
        } else {
            match key {
                Key::Char(c) => InputModel {
                    text: self.text.insert(self.cursor as int, c),
                    cursor: self.cursor + 1,
                    ..self
                },
                Key::Backspace => InputModel {
                    text: self.text.remove(self.cursor - 1),
                    cursor: (self.cursor - 1) as nat,
                    ..self
                },
                Key::Delete => InputModel { text: self.text.remove(self.cursor as int), ..self },
                Key::Left => InputModel { cursor: (self.cursor - 1) as nat, ..self },
                Key::Right => InputModel { cursor: self.cursor + 1, ..self },
                Key::Home => InputModel { cursor: 0, ..self },
                Key::End => InputModel { cursor: self.text.len(), ..self },
                _ => self,
            }
        }
    }
}

impl InputModel {
    /// The input with `text` added at its end and the cursor behind it.
    pub open spec fn appended(self, text: Seq<char>) -> InputModel {
        InputModel { text: self.text + text, cursor: self.cursor + text.len(), ..self }
    }
}

/// Typing a character with the cursor at the end adds it to the end.
pub proof fn lemma_typing_appends(input: InputModel, text: Seq<char>, c: char)
    requires
        input.cursor == input.text.len(),
    ensures
        input.appended(text).responds_to(Key::Char(c)),
        input.appended(text).handle_key(Key::Char(c)) == input.appended(text.push(c)),
        input.appended(Seq::empty()) == input,
{
    let before = input.appended(text);
    assert(before.text.insert(before.cursor as int, c) =~= input.text + text.push(c));
    assert(input.text + Seq::<char>::empty() =~= input.text);
}

/// Editing keeps the cursor inside the text, and never touches the prompt.
pub proof fn lemma_editing_keeps_input_valid(input: InputModel, key: Key)
    requires
        input.wf(),
    ensures
        input.handle_key(key).wf(),
        input.handle_key(key).prompt == input.prompt,
        !input.responds_to(key) ==> input.handle_key(key) == input,
{
}

/// A prompt with an editable line of text.
#[derive(Clone, Debug)]
pub struct InputManager {
    prompt: String,
    text: Vec<char>,
    cursor: usize,
}

impl View for InputManager {
    type V = InputModel;

    closed spec fn view(&self) -> InputModel {
        InputModel { prompt: self.prompt@, text: self.text@, cursor: self.cursor as nat }
    }
}

impl InputManager {
    /// An empty input behind `prompt`.
    pub fn new(prompt: String) -> (input: InputManager)
        ensures
            input@ == InputModel::with_value(prompt@, Seq::empty()),
            input@.wf(),
    {
        InputManager { prompt, text: Vec::new(), cursor: 0 }
    }

    /// An input behind `prompt` that starts out holding `value`.
    pub fn new_with_value(prompt: String, value: String) -> (input: InputManager)
        ensures
            input@ == InputModel::with_value(prompt@, value@),
            input@.wf(),
    {
        let text = chars_of(value.as_str());
        let cursor = text.len();
        InputManager { prompt, text, cursor }
    }

    /// Applies a key to the input and says whether anything changed.
    pub fn handle_key(&mut self, key: Key) -> (changed: bool)
        requires
            old(self)@.wf(),
        ensures
            final(self)@ == old(self)@.handle_key(key),
            changed == old(self)@.responds_to(key),
            final(self)@.wf(),
    {
        match key {
            Key::Char(c) => {
                self.text.insert(self.cursor, c);
                assert(self.cursor < self.text.len());
                self.cursor = self.cursor + 1;
                true
            },
            Key::Backspace => {
                if self.cursor > 0 {
                    self.text.remove(self.cursor - 1);
                    self.cursor = self.cursor - 1;
                    true
                } else {
                    false
                }
            },
            Key::Delete => {
                if self.cursor < self.text.len() {
                    self.text.remove(self.cursor);
                    true
                } else {
                    false
                }
            },
            Key::Left => {
                if self.cursor > 0 {
                    self.cursor = self.cursor - 1;
                    true
                } else {
                    false
                }
            },
            Key::Right => {
                if self.cursor < self.text.len() {
                    self.cursor = self.cursor + 1;
                    true
                } else {
                    false
                }
            },
            Key::Home => {
                if self.cursor > 0 {
                    self.cursor = 0;
                    true
                } else {
                    false
                }
            },
            Key::End => {
                if self.cursor < self.text.len() {
                    self.cursor = self.text.len();
                    true
                } else {
                    false
                }
            },
            Key::Enter | Key::Esc | Key::Up | Key::Down | Key::Other => false,
        }
    }

    /// The text typed so far.
    pub fn text(&self) -> (text: String)
        ensures
            text@ == self@.text,
    {
        string_of(&self.text)
    }

    /// Whether nothing has been typed.
    pub fn is_empty(&self) -> (empty: bool)
        ensures
            empty == (self@.text.len() == 0),
    {
        self.text.len() == 0
    }

    /// The prompt shown before the text.
    pub fn prompt(&self) -> (prompt: &String)
        ensures
            prompt@ == self@.prompt,
    {
        &self.prompt
    }

    /// The position of the cursor in the text.
    pub fn cursor(&self) -> (cursor: usize)
        ensures
            cursor == self@.cursor,
    {
        self.cursor
    }
}

} // verus!
