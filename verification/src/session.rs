//! The session controller: the screens the tool can show, the URL edit
//! buffer, the selection into the request history, and the transitions
//! that discrete input events drive.

use vstd::prelude::*;
use vstd::string::StringExecFns;

use crate::store::RequestStore;
use crate::store::SpecEntry;
use crate::store::spec_insert;

verus! {

/// The screen the session currently shows. Exactly one is active; it gates
/// which inputs are meaningful.
#[derive(Clone, Copy, Debug, PartialEq, Eq, Structural)]
pub enum CurrentScreen {
    Main,
    Editing,
    Exiting,
    Clearing,
}

/// Which field is being edited. A tagged variant rather than a boolean so
/// that further editable fields can be added.
#[derive(Clone, Copy, Debug, PartialEq, Eq, Structural)]
pub enum CurrentlyEditing {
    Url,
}

/// Why a fetch attempt produced no body: the transport failed or the body
/// was not valid text.
pub struct FetchError {
    pub message: String,
}

/// The whole in-memory state of one run of the tool.
pub struct App {
    pub url_input: String,
    pub current_url: String,
    pub current_screen: CurrentScreen,
    pub currently_editing: Option<CurrentlyEditing>,
    pub requests: RequestStore,
    pub response: Option<String>,
    pub current_index: usize,
}

impl App {
    /// The edit target is set exactly while the editing screen is active.
    pub open spec fn editing_ok(self) -> bool {
        self.currently_editing is Some <==> self.current_screen is Editing
    }

    /// The selection is a valid position whenever the history is non-empty,
    /// and zero when it is empty.
    pub open spec fn index_ok(self) -> bool {
        if self.requests@.len() == 0 {
            self.current_index == 0
        } else {
            (self.current_index as int) < self.requests@.len()
        }
    }

    /// The session's standing invariant.
    pub open spec fn wf(self) -> bool {
        self.requests.wf() && self.editing_ok() && self.index_ok()
    }
}

/// All fields of `post` equal those of `pre` except possibly the edit
/// buffer.
pub open spec fn same_but_buffer(pre: App, post: App) -> bool {
    &&& post.current_url == pre.current_url
    &&& post.current_screen == pre.current_screen
    &&& post.currently_editing == pre.currently_editing
    &&& post.requests == pre.requests
    &&& post.response == pre.response
    &&& post.current_index == pre.current_index
}

impl App {
    /// A fresh session: main screen, nothing being edited, empty history.
    pub fn new() -> (app: App)
        ensures
            app.wf(),
            app.url_input@ =~= Seq::<char>::empty(),
            app.current_url@ =~= Seq::<char>::empty(),
            app.current_screen is Main,
            app.currently_editing is None,
            app.requests@ =~= Seq::<SpecEntry>::empty(),
            app.response is None,
            app.current_index == 0,
    {
        App {
            current_url: String::new(),
            url_input: String::new(),
            current_screen: CurrentScreen::Main,
            currently_editing: None,
            requests: RequestStore::new(),
            response: None,
            current_index: 0,
        }
    }

    /// Marks the URL field as the edit target (the only target there is).
    pub fn toggle_editing(&mut self)
        ensures
            final(self).currently_editing == Some(CurrentlyEditing::Url),
            final(self).url_input == old(self).url_input,
            final(self).current_url == old(self).current_url,
            final(self).current_screen == old(self).current_screen,
            final(self).requests == old(self).requests,
            final(self).response == old(self).response,
            final(self).current_index == old(self).current_index,
            old(self).wf() && old(self).current_screen is Editing ==> final(self).wf(),
    {
        match self.currently_editing {
            Some(CurrentlyEditing::Url) => {
                self.currently_editing = Some(CurrentlyEditing::Url);
            },
            None => {
                self.currently_editing = Some(CurrentlyEditing::Url);
            },
        }
    }

    /// Leaves editing: back to the main screen, no edit target. The buffer
    /// is retained for the next edit.
    pub fn on_press_esc(&mut self)
        ensures
            final(self).current_screen is Main,
            final(self).currently_editing is None,
            final(self).url_input == old(self).url_input,
            final(self).current_url == old(self).current_url,
            final(self).requests == old(self).requests,
            final(self).response == old(self).response,
            final(self).current_index == old(self).current_index,
            old(self).wf() ==> final(self).wf(),
    {
        self.current_screen = CurrentScreen::Main;
        self.currently_editing = None;
    }

    /// Moves the selection one entry up when the history has two or more
    /// entries and the selection is not already at the top; otherwise a
    /// no-op.
    pub fn on_arrow_up(&mut self)
        requires
            old(self).wf(),
        ensures
            final(self).wf(),
            final(self).current_index == if old(self).requests@.len() > 1
                && old(self).current_index > 0 {
                (old(self).current_index - 1) as usize
            } else {
                old(self).current_index
            },
            same_but_index(*old(self), *final(self)),
    {
        if self.requests.size() > 1 && self.current_index > 0 {
            self.current_index = self.current_index - 1;
        }
    }

    /// Moves the selection one entry down when the history has two or more
    /// entries and the selection is not already at the bottom; otherwise a
    /// no-op.
    pub fn on_arrow_down(&mut self)
        requires
            old(self).wf(),
        ensures
            final(self).wf(),
            final(self).current_index == if old(self).requests@.len() > 1
                && (old(self).current_index as int) < old(self).requests@.len() - 1 {
                (old(self).current_index + 1) as usize
            } else {
                old(self).current_index
            },
            same_but_index(*old(self), *final(self)),
    {
        let n = self.requests.size();
        if n > 1 && self.current_index < n - 1 {
            self.current_index = self.current_index + 1;
        }
    }

    /// Appends a character to the edit buffer; ignored when nothing is
    /// being edited.
    pub fn on_char_press(&mut self, value: char)
        ensures
            old(self).currently_editing is Some ==> final(self).url_input@
                == old(self).url_input@.push(value),
            old(self).currently_editing is None ==> final(self).url_input
                == old(self).url_input,
            same_but_buffer(*old(self), *final(self)),
            old(self).wf() ==> final(self).wf(),
    {
        match self.currently_editing {
            Some(CurrentlyEditing::Url) => {
                string_push(&mut self.url_input, value);
            },
            None => {},
        }
    }

    /// Removes the last character of the edit buffer (no-op when it is
    /// empty); ignored when nothing is being edited.
    pub fn on_press_backspace(&mut self)
        ensures
            old(self).currently_editing is Some ==> final(self).url_input@
                == if old(self).url_input@.len() > 0 {
                    old(self).url_input@.drop_last()
                } else {
                    old(self).url_input@
                },
            old(self).currently_editing is None ==> final(self).url_input
                == old(self).url_input,
            same_but_buffer(*old(self), *final(self)),
            old(self).wf() ==> final(self).wf(),
    {
        match self.currently_editing {
            Some(CurrentlyEditing::Url) => {
                let _ = string_pop(&mut self.url_input);
            },
            None => {},
        }
    }

    /// Empties the request history and resets the selection to the top.
    pub fn wipe_requests(&mut self)
        ensures
            final(self).requests.wf(),
            final(self).requests@ =~= Seq::<SpecEntry>::empty(),
            final(self).current_index == 0,
            final(self).url_input == old(self).url_input,
            final(self).current_url == old(self).current_url,
            final(self).current_screen == old(self).current_screen,
            final(self).currently_editing == old(self).currently_editing,
            final(self).response == old(self).response,
            old(self).editing_ok() ==> final(self).wf(),
    {
        self.requests.clear();
        self.current_index = 0;
    }

    /// Confirmation of the clear prompt: empties the history.
    pub fn on_press_c(&mut self)
        ensures
            final(self).requests.wf(),
            final(self).requests@ =~= Seq::<SpecEntry>::empty(),
            final(self).current_index == 0,
            final(self).url_input == old(self).url_input,
            final(self).current_url == old(self).current_url,
            final(self).current_screen == old(self).current_screen,
            final(self).currently_editing == old(self).currently_editing,
            final(self).response == old(self).response,
            old(self).editing_ok() ==> final(self).wf(),
    {
        self.wipe_requests();
    }

    /// Marks the URL field as the edit target, as `toggle_editing` does.
    pub fn on_press_tab(&mut self)
        ensures
            final(self).currently_editing == Some(CurrentlyEditing::Url),
            final(self).url_input == old(self).url_input,
            final(self).current_url == old(self).current_url,
            final(self).current_screen == old(self).current_screen,
            final(self).requests == old(self).requests,
            final(self).response == old(self).response,
            final(self).current_index == old(self).current_index,
            old(self).wf() && old(self).current_screen is Editing ==> final(self).wf(),
    {
        self.toggle_editing();
    }
}

impl App {
    /// Records the outcome of fetching the URL in the edit buffer: the body
    /// on success, a marked error text on failure, keyed by that URL.
    pub fn do_request(&mut self, fetch_result: Result<String, FetchError>)
        requires
            old(self).requests.wf(),
        ensures
            final(self).requests.wf(),
            final(self).requests@ =~= spec_insert(
                old(self).requests@,
                old(self).url_input@,
                stored_text(fetch_result),
            ),
            final(self).url_input == old(self).url_input,
            final(self).current_url == old(self).current_url,
            final(self).current_screen == old(self).current_screen,
            final(self).currently_editing == old(self).currently_editing,
            final(self).response == old(self).response,
            final(self).current_index == old(self).current_index,
    {
        let url = self.url_input.clone();
        let text = match fetch_result {
            Ok(body) => body,
            Err(e) => make_error_marker(e.message.as_str()),
        };
        self.requests.insert(url, text);
    }

    /// The save-request procedure: records the fetch outcome under the
    /// edited URL, then empties the buffer and drops the edit target.
    pub fn save_request(&mut self, fetch_result: Result<String, FetchError>)
        requires
            old(self).requests.wf(),
        ensures
            final(self).requests.wf(),
            final(self).requests@ =~= spec_insert(
                old(self).requests@,
                old(self).url_input@,
                stored_text(fetch_result),
            ),
            final(self).url_input@ =~= Seq::<char>::empty(),
            final(self).currently_editing is None,
            final(self).current_url == old(self).current_url,
            final(self).current_screen == old(self).current_screen,
            final(self).response == old(self).response,
            final(self).current_index == old(self).current_index,
            old(self).index_ok() ==> final(self).index_ok(),
    {
        self.do_request(fetch_result);
        proof {
            crate::store::lemma_spec_insert_grows(
                old(self).requests@,
                old(self).url_input@,
                stored_text(fetch_result),
            );
        }

        self.url_input = String::new();
        self.currently_editing = None;
    }

    /// Completes an edit: when a field is being edited, runs the
    /// save-request procedure on the fetch outcome and returns to the main
    /// screen; otherwise a no-op.
    pub fn on_press_enter(&mut self, fetch_result: Result<String, FetchError>)
        requires
            old(self).wf(),
        ensures
            final(self).wf(),
            old(self).currently_editing is Some ==> {
                &&& final(self).requests@ =~= spec_insert(
                    old(self).requests@,
                    old(self).url_input@,
                    stored_text(fetch_result),
                )
                &&& final(self).url_input@ =~= Seq::<char>::empty()
                &&& final(self).currently_editing is None
                &&& final(self).current_screen is Main
                &&& final(self).current_url == old(self).current_url
                &&& final(self).response == old(self).response
                &&& final(self).current_index == old(self).current_index
            },
            old(self).currently_editing is None ==> *final(self) == *old(self),
    {
        match self.currently_editing {
            Some(CurrentlyEditing::Url) => {
                self.save_request(fetch_result);
                self.current_screen = CurrentScreen::Main;
            },
            None => {},
        }
    }
}

/// A discrete, already-decoded key press handed in by the host input loop.
#[derive(Clone, Copy, Debug, PartialEq, Eq, Structural)]
pub enum KeyInput {
    Up,
    Down,
    Enter,
    Backspace,
    Esc,
    Tab,
    Char(char),
}

/// What the host must do after an event: keep going, perform the fetch for
/// the edited URL and hand its outcome to `on_press_enter`, or terminate,
/// exporting the history as a structured document on the way out.
#[derive(Clone, Copy, Debug, PartialEq, Eq, Structural)]
pub enum Command {
    Continue,
    Fetch,
    Terminate,
}

/// The transition relation of the controller: from the session `pre`, the
/// key `key` leads to the session `post` and asks the host for `cmd`.
pub open spec fn step(pre: App, key: KeyInput, post: App, cmd: Command) -> bool {
    match pre.current_screen {
        CurrentScreen::Main => step_main(pre, key, post, cmd),
        CurrentScreen::Editing => step_editing(pre, key, post, cmd),
        CurrentScreen::Exiting => step_exiting(pre, key, post, cmd),
        CurrentScreen::Clearing => step_clearing(pre, key, post, cmd),
    }
}

/// Main screen: `e` opens editing, `q` asks to confirm exiting, `c` asks to
/// confirm clearing, the arrows move the selection; all else is ignored.
pub open spec fn step_main(pre: App, key: KeyInput, post: App, cmd: Command) -> bool {
    match key {
        KeyInput::Char(c) => if c == 'e' {
            post == App {
                current_screen: CurrentScreen::Editing,
                currently_editing: Some(CurrentlyEditing::Url),
                ..pre
            } && cmd == Command::Continue
        } else if c == 'q' {
            post == App { current_screen: CurrentScreen::Exiting, ..pre }
                && cmd == Command::Continue
        } else if c == 'c' {
            post == App { current_screen: CurrentScreen::Clearing, ..pre }
                && cmd == Command::Continue
        } else {
            post == pre && cmd == Command::Continue
        },
        KeyInput::Up => post == App { current_index: nav_up(pre), ..pre }
            && cmd == Command::Continue,
        KeyInput::Down => post == App { current_index: nav_down(pre), ..pre }
            && cmd == Command::Continue,
        _ => post == pre && cmd == Command::Continue,
    }
}

/// Editing screen: enter asks the host to fetch, the other keys edit the
/// buffer or leave the screen; all else is ignored.
pub open spec fn step_editing(pre: App, key: KeyInput, post: App, cmd: Command) -> bool {
    match key {
        KeyInput::Enter => post == pre && cmd == Command::Fetch,
        KeyInput::Backspace => {
            &&& post.url_input@ == if pre.url_input@.len() > 0 {
                pre.url_input@.drop_last()
            } else {
                pre.url_input@
            }
            &&& same_but_buffer(pre, post)
            &&& cmd == Command::Continue
        },
        KeyInput::Esc => post == App {
            current_screen: CurrentScreen::Main,
            currently_editing: None,
            ..pre
        } && cmd == Command::Continue,
        KeyInput::Tab => post == App {
            currently_editing: Some(CurrentlyEditing::Url),
            ..pre
        } && cmd == Command::Continue,
        KeyInput::Char(c) => {
            &&& post.url_input@ == pre.url_input@.push(c)
            &&& same_but_buffer(pre, post)
            &&& cmd == Command::Continue
        },
        _ => post == pre && cmd == Command::Continue,
    }
}

/// Exit confirmation: `y` terminates, with the history exported on the way
/// out; `n` or `q` declines and returns to the main screen; all else is
/// ignored.
pub open spec fn step_exiting(pre: App, key: KeyInput, post: App, cmd: Command) -> bool {
    match key {
        KeyInput::Char(c) => if c == 'y' {
            post == pre && cmd == Command::Terminate
        } else if c == 'n' || c == 'q' {
            post == App { current_screen: CurrentScreen::Main, ..pre }
                && cmd == Command::Continue
        } else {
            post == pre && cmd == Command::Continue
        },
        _ => post == pre && cmd == Command::Continue,
    }
}

/// Clear confirmation: `y` empties the history and resets the selection,
/// `n` cancels; either returns to the main screen; all else is ignored.
pub open spec fn step_clearing(pre: App, key: KeyInput, post: App, cmd: Command) -> bool {
    match key {
        KeyInput::Char(c) => if c == 'y' {
            &&& post.requests@ =~= Seq::<SpecEntry>::empty()
            &&& post.requests.wf()
            &&& post.current_index == 0
            &&& post.current_screen is Main
            &&& post.currently_editing == pre.currently_editing
            &&& post.url_input == pre.url_input
            &&& post.current_url == pre.current_url
            &&& post.response == pre.response
            &&& cmd == Command::Continue
        } else if c == 'n' {
            post == App { current_screen: CurrentScreen::Main, ..pre }
                && cmd == Command::Continue
        } else {
            post == pre && cmd == Command::Continue
        },
        _ => post == pre && cmd == Command::Continue,
    }
}

/// Where the selection moves on an up key.
pub open spec fn nav_up(pre: App) -> usize {
    if pre.requests@.len() > 1 && pre.current_index > 0 {
        (pre.current_index - 1) as usize
    } else {
        pre.current_index
    }
}

/// Where the selection moves on a down key.
pub open spec fn nav_down(pre: App) -> usize {
    if pre.requests@.len() > 1 && (pre.current_index as int) < pre.requests@.len() - 1 {
        (pre.current_index + 1) as usize
    } else {
        pre.current_index
    }
}

impl App {
    /// Processes one key event: applies the transition the active screen
    /// prescribes and returns what the host must do next.
    pub fn handle_key(&mut self, key: KeyInput) -> (cmd: Command)
        requires
            old(self).wf(),
        ensures
            final(self).wf(),
            step(*old(self), key, *final(self), cmd),
    {
        match self.current_screen {
            CurrentScreen::Main => match key {
                KeyInput::Char(c) => {
                    if c == 'e' {
                        self.current_screen = CurrentScreen::Editing;
                        self.currently_editing = Some(CurrentlyEditing::Url);
                    } else if c == 'q' {
                        self.current_screen = CurrentScreen::Exiting;
                    } else if c == 'c' {
                        self.current_screen = CurrentScreen::Clearing;
                    }
                    Command::Continue
                },
                KeyInput::Up => {
                    self.on_arrow_up();
                    Command::Continue
                },
                KeyInput::Down => {
                    self.on_arrow_down();
                    Command::Continue
                },
                _ => Command::Continue,
            },
            CurrentScreen::Clearing => match key {
                KeyInput::Char(c) => {
                    if c == 'y' {
                        self.on_press_c();
                        self.current_screen = CurrentScreen::Main;
                    } else if c == 'n' {
                        self.current_screen = CurrentScreen::Main;
                    }
                    Command::Continue
                },
                _ => Command::Continue,
            },
            CurrentScreen::Exiting => match key {
                KeyInput::Char(c) => {
                    if c == 'y' {
                        Command::Terminate
                    } else if c == 'n' || c == 'q' {
                        self.current_screen = CurrentScreen::Main;
                        Command::Continue
                    } else {
                        Command::Continue
                    }
                },
                _ => Command::Continue,
            },
            CurrentScreen::Editing => match key {
                KeyInput::Enter => Command::Fetch,
                KeyInput::Backspace => {
                    self.on_press_backspace();
                    Command::Continue
                },
                KeyInput::Esc => {
                    self.on_press_esc();
                    Command::Continue
                },
                KeyInput::Tab => {
                    self.on_press_tab();
                    Command::Continue
                },
                KeyInput::Char(c) => {
                    self.on_char_press(c);
                    Command::Continue
                },
                _ => Command::Continue,
            },
        }
    }
}

/// However the host drives it, a transition from a well-formed session
/// yields a well-formed session; by induction over any sequence of key
/// events — up and down presses included — the selection index stays within
/// `[0, max(0, history.size() - 1)]`.
pub proof fn lemma_step_preserves_wf(pre: App, key: KeyInput, post: App, cmd: Command)
    requires
        pre.wf(),
        step(pre, key, post, cmd),
    ensures
        post.wf(),
        post.current_index as int <= ({
            let n = post.requests@.len();
            if n == 0 {
                0int
            } else {
                n - 1
            }
        }),
{
}

/// On the main screen with an empty history, an up or a down press is a
/// no-op: the whole session is untouched and the selection stays at zero.
pub proof fn lemma_arrows_noop_on_empty_history(pre: App, key: KeyInput, post: App, cmd: Command)
    requires
        pre.wf(),
        pre.current_screen is Main,
        pre.requests@.len() == 0,
        key == KeyInput::Up || key == KeyInput::Down,
        step(pre, key, post, cmd),
    ensures
        post == pre,
        post.current_index == 0,
{
}

/// At the clear prompt, `n` leaves the history exactly as it was and `y`
/// empties it, resetting the selection; either returns to the main screen.
pub proof fn lemma_confirm_clear(pre: App, post: App, cmd: Command, key: KeyInput)
    requires
        pre.wf(),
        pre.current_screen is Clearing,
        step(pre, key, post, cmd),
    ensures
        key == KeyInput::Char('n') ==> post.requests == pre.requests
            && post.current_index == pre.current_index
            && post.current_screen is Main,
        key == KeyInput::Char('y') ==> post.requests@ =~= Seq::<SpecEntry>::empty()
            && post.current_index == 0
            && post.current_screen is Main,
{
}

/// The text that a fetch outcome leaves in the history: the body itself on
/// success, the marked error text on failure.
pub open spec fn stored_text(r: Result<String, FetchError>) -> Seq<char> {
    match r {
        Ok(body) => body@,
        Err(e) => error_marker(e.message@),
    }
}

/// The distinguishable text stored for a failed fetch.
pub open spec fn error_marker(msg: Seq<char>) -> Seq<char> {
    "<error: "@ + msg + ">"@
}

/// Builds the stored text for a failed fetch from its message.
pub fn make_error_marker(msg: &str) -> (r: String)
    ensures
        r@ =~= error_marker(msg@),
{
    let mut r = "<error: ".to_owned();
    r.append(msg);
    r.append(">");
    r
}

/// All fields of `post` equal those of `pre` except possibly the selection
/// index.
pub open spec fn same_but_index(pre: App, post: App) -> bool {
    &&& post.url_input == pre.url_input
    &&& post.current_url == pre.current_url
    &&& post.current_screen == pre.current_screen
    &&& post.currently_editing == pre.currently_editing
    &&& post.requests == pre.requests
    &&& post.response == pre.response
}

/// Relies on `String::push`: appends the character at the end of the
/// string.
#[verifier::external_body]
fn string_push(s: &mut String, c: char)
    ensures
        final(s)@ == old(s)@.push(c),
{
    s.push(c);
}

/// Relies on `String::pop`: removes and returns the last character, or
/// returns `None` and leaves the string as it is when it is empty.
#[verifier::external_body]
fn string_pop(s: &mut String) -> (r: Option<char>)
    ensures
        old(s)@.len() == 0 ==> final(s)@ == old(s)@ && r is None,
        old(s)@.len() > 0 ==> final(s)@ == old(s)@.drop_last() && r == Some(old(s)@.last()),
{
    s.pop()
}

} // verus!
