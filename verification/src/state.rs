//! The application state machine: the UI states, the key-driven transition
//! rules, and the completion step that folds the worker's result into the
//! final state.
use vstd::prelude::*;
use crate::download::filter_m4a;
use crate::download::is_m4a;

verus! {

/// The finite set of UI states, entered in this order: the two entry
/// states, the downloading state that self-loops until the worker is done,
/// and the two terminal states.
#[derive(Clone, Copy, PartialEq, Eq, Structural, Debug)]
pub enum AppState {
    InputPlaylistName,
    InputUrl,
    Downloading,
    Done,
    Error,
}

/// The keystrokes the machine distinguishes. Every other key is no event.
#[derive(Clone, Copy, PartialEq, Eq, Structural, Debug)]
pub enum KeyInput {
    Confirm,
    Printable(char),
    Delete,
    Cancel,
}

/// What the driving loop must do after a transition: keep looping, spawn
/// the download worker, or leave the loop and restore the terminal.
#[derive(Clone, Copy, PartialEq, Eq, Structural, Debug)]
pub enum Action {
    Continue,
    StartDownload,
    Exit,
}

/// The abstract application state: the machine state plus the plain text
/// values the transitions read and write.
#[verifier::ext_equal]
pub ghost struct AppView {
    pub state: AppState,
    pub name: Seq<char>,
    pub url: Seq<char>,
    pub error: Seq<char>,
    pub files: Seq<Seq<char>>,
    pub output: Seq<char>,
}

/// The diagnostic shown in the failure state, fixed whatever went wrong.
pub open spec fn failed_message() -> Seq<char> {
    "Download failed. Check your connection and URL."@
}

/// The transition table for one keystroke: the next abstract state and the
/// action owed by the loop.
///
/// In an entry state, printable keys edit the text, delete removes its last
/// character, confirm advances only when the text is non-empty, and cancel
/// exits. Confirming a non-empty URL is what starts the download. While
/// downloading only cancel does anything. In a terminal state only confirm
/// does anything, and it exits.
pub open spec fn step(v: AppView, key: KeyInput) -> (AppView, Action) {
    match v.state {
        AppState::InputPlaylistName => match key {
            KeyInput::Confirm => if v.name.len() > 0 {
                (AppView { state: AppState::InputUrl, ..v }, Action::Continue)
            } else {
                (v, Action::Continue)
            },
            KeyInput::Printable(c) => (AppView { name: v.name.push(c), ..v }, Action::Continue),
            KeyInput::Delete => (
                AppView {
                    name: if v.name.len() > 0 {
                        v.name.drop_last()
                    } else {
                        v.name
                    },
                    ..v
                },
                Action::Continue,
            ),
            KeyInput::Cancel => (v, Action::Exit),
        },
        AppState::InputUrl => match key {
            KeyInput::Confirm => if v.url.len() > 0 {
                (AppView { state: AppState::Downloading, ..v }, Action::StartDownload)
            } else {
                (v, Action::Continue)
            },
            KeyInput::Printable(c) => (AppView { url: v.url.push(c), ..v }, Action::Continue),
            KeyInput::Delete => (
                AppView {
                    url: if v.url.len() > 0 {
                        v.url.drop_last()
                    } else {
                        v.url
                    },
                    ..v
                },
                Action::Continue,
            ),
            KeyInput::Cancel => (v, Action::Exit),
        },
        AppState::Downloading => match key {
            KeyInput::Cancel => (v, Action::Exit),
            _ => (v, Action::Continue),
        },
        AppState::Done | AppState::Error => match key {
            KeyInput::Confirm => (v, Action::Exit),
            _ => (v, Action::Continue),
        },
    }
}

/// Where a completion poll that sees `done` lands: on success the results
/// are the listing entries with the expected audio extension, on failure
/// the fixed diagnostic is set; either way the final output snapshot is
/// kept and the entered texts stay as they were.
pub open spec fn completed(
    v: AppView,
    succeeded: bool,
    snapshot: Seq<char>,
    listing: Seq<Seq<char>>,
) -> AppView {
    if succeeded {
        AppView {
            state: AppState::Done,
            files: listing.filter(|n: Seq<char>| is_m4a(n)),
            output: snapshot,
            ..v
        }
    } else {
        AppView { state: AppState::Error, error: failed_message(), output: snapshot, ..v }
    }
}

/// The value-holding application record, owned by the render loop.
pub struct App {
    pub state: AppState,
    pub playlist_name: Vec<char>,
    pub url: Vec<char>,
    pub error_message: String,
    pub files_downloaded: Vec<String>,
    pub download_output_final: String,
}

impl View for App {
    type V = AppView;

    open spec fn view(&self) -> AppView {
        AppView {
            state: self.state,
            name: self.playlist_name@,
            url: self.url@,
            error: self.error_message@,
            files: self.files_downloaded@.map_values(|s: String| s@),
            output: self.download_output_final@,
        }
    }
}

impl App {
    /// A fresh application: name entry, with every text value empty.
    pub fn new() -> (r: App)
        ensures
            r@.state == AppState::InputPlaylistName,
            r@.name == Seq::<char>::empty(),
            r@.url == Seq::<char>::empty(),
            r@.error == Seq::<char>::empty(),
            r@.files == Seq::<Seq<char>>::empty(),
            r@.output == Seq::<char>::empty(),
    {
        let r = App {
            state: AppState::InputPlaylistName,
            playlist_name: Vec::new(),
            url: Vec::new(),
            error_message: String::new(),
            files_downloaded: Vec::new(),
            download_output_final: String::new(),
        };
        proof {
            assert(r@.files =~= Seq::<Seq<char>>::empty());
        }
        r
    }

    /// Apply one keystroke: the state and texts change exactly as the
    /// transition table says, and the owed action is returned.
    pub fn handle_key(&mut self, key: KeyInput) -> (act: Action)
        ensures
            final(self)@ == step(old(self)@, key).0,
            act == step(old(self)@, key).1,
    {
        let act = match self.state {
            AppState::InputPlaylistName => match key {
                KeyInput::Confirm => {
                    if self.playlist_name.len() > 0 {
                        self.state = AppState::InputUrl;
                    }
                    Action::Continue
                },
                KeyInput::Printable(c) => {
                    self.playlist_name.push(c);
                    Action::Continue
                },
                KeyInput::Delete => {
                    let _ = self.playlist_name.pop();
                    Action::Continue
                },
                KeyInput::Cancel => Action::Exit,
            },
            AppState::InputUrl => match key {
                KeyInput::Confirm => {
                    if self.url.len() > 0 {
                        self.state = AppState::Downloading;
                        Action::StartDownload
                    } else {
                        Action::Continue
                    }
                },
                KeyInput::Printable(c) => {
                    self.url.push(c);
                    Action::Continue
                },
                KeyInput::Delete => {
                    let _ = self.url.pop();
                    Action::Continue
                },
                KeyInput::Cancel => Action::Exit,
            },
            AppState::Downloading => match key {
                KeyInput::Cancel => Action::Exit,
                _ => Action::Continue,
            },
            AppState::Done | AppState::Error => match key {
                KeyInput::Confirm => Action::Exit,
                _ => Action::Continue,
            },
        };
        proof {
            assert(self@ =~= step(old(self)@, key).0);
        }
        act
    }

    /// The downloading state's completion poll, on the values read out of
    /// the progress channel and the destination directory. While the
    /// worker is not done, nothing changes and the loop keeps ticking; the
    /// first call after the worker is done reaches a terminal state: on
    /// success the results are the directory entries with the expected
    /// audio extension, on failure the fixed diagnostic is set. Either way
    /// the final output snapshot is kept.
    pub fn check_download(
        &mut self,
        done: bool,
        succeeded: bool,
        snapshot: String,
        listing: Vec<String>,
    ) -> (finished: bool)
        ensures
            finished == done,
            !done ==> final(self)@ == old(self)@,
            done ==> final(self)@ == completed(
                old(self)@,
                succeeded,
                snapshot@,
                listing@.map_values(|s: String| s@),
            ),
    {
        if done {
            self.download_output_final = snapshot;
            if succeeded {
                self.files_downloaded = filter_m4a(listing);
                self.state = AppState::Done;
                proof {
                    assert(self@ =~= (AppView {
                        state: AppState::Done,
                        files: listing@.map_values(|s: String| s@).filter(
                            |n: Seq<char>| is_m4a(n),
                        ),
                        output: self.download_output_final@,
                        ..old(self)@
                    }));
                }
            } else {
                self.error_message = "Download failed. Check your connection and URL.".to_owned();
                self.state = AppState::Error;
                proof {
                    assert(self@ =~= (AppView {
                        state: AppState::Error,
                        error: failed_message(),
                        output: self.download_output_final@,
                        ..old(self)@
                    }));
                }
            }
            true
        } else {
            false
        }
    }
}

/// The abstract state after a whole sequence of keystrokes.
pub open spec fn run(v: AppView, keys: Seq<KeyInput>) -> AppView
    decreases keys.len(),
{
    if keys.len() == 0 {
        v
    } else {
        run(step(v, keys.first()).0, keys.drop_first())
    }
}

/// The text a sequence of keystrokes leaves behind: printable keys append
/// their character, delete removes the last one, anything else leaves the
/// text alone.
pub open spec fn edited(text: Seq<char>, keys: Seq<KeyInput>) -> Seq<char>
    decreases keys.len(),
{
    if keys.len() == 0 {
        text
    } else {
        let t = match keys.first() {
            KeyInput::Printable(c) => text.push(c),
            KeyInput::Delete => if text.len() > 0 {
                text.drop_last()
            } else {
                text
            },
            _ => text,
        };
        edited(t, keys.drop_first())
    }
}

/// Every key in the sequence edits text: it is printable or delete.
pub open spec fn editing_keys(keys: Seq<KeyInput>) -> bool {
    forall|i: int| 0 <= i < keys.len() ==> (keys[i] is Printable || keys[i] is Delete)
}

/// Law: from the name-entry state, any sequence of printable and delete
/// keys followed by a confirm, with non-empty resulting text, lands in the
/// URL-entry state with the name equal to the edit of the typed keys.
pub proof fn lemma_name_entry_confirm(v: AppView, keys: Seq<KeyInput>)
    requires
        v.state == AppState::InputPlaylistName,
        editing_keys(keys),
        edited(v.name, keys).len() > 0,
    ensures
        run(v, keys.push(KeyInput::Confirm)).state == AppState::InputUrl,
        run(v, keys.push(KeyInput::Confirm)).name == edited(v.name, keys),
    decreases keys.len(),
{
    let full = keys.push(KeyInput::Confirm);
    if keys.len() == 0 {
        assert(full.first() == KeyInput::Confirm);
        assert(full.drop_first() =~= Seq::<KeyInput>::empty());
        assert(edited(v.name, keys) == v.name);
        let w = step(v, KeyInput::Confirm).0;
        assert(w.state == AppState::InputUrl);
        assert(run(v, full) == run(w, full.drop_first()));
        assert(run(w, full.drop_first()) == w);
    } else {
        let k0 = keys.first();
        assert(k0 is Printable || k0 is Delete);
        assert(full.first() == k0);
        assert(full.drop_first() =~= keys.drop_first().push(KeyInput::Confirm));
        let v1 = step(v, k0).0;
        assert(v1.state == AppState::InputPlaylistName);
        assert(edited(v1.name, keys.drop_first()) == edited(v.name, keys));
        assert(editing_keys(keys.drop_first())) by {
            assert forall|i: int|
                0 <= i < keys.drop_first().len() implies (keys.drop_first()[i] is Printable
                || keys.drop_first()[i] is Delete) by {
                assert(keys.drop_first()[i] == keys[i + 1]);
            }
        }
        lemma_name_entry_confirm(v1, keys.drop_first());
        assert(run(v, full) == run(v1, full.drop_first()));
        assert(run(v1, full.drop_first()) == run(v1, keys.drop_first().push(KeyInput::Confirm)));
    }
}

/// Law: completion is observed within one poll: the first completion poll
/// that sees `done` lands in a terminal state — `Done` exactly when the
/// worker succeeded, `Error` otherwise — and leaves the entered texts as
/// they were. The loop polls once per tick, so the machine reaches its
/// terminal state at most one poll interval after `mark_done`.
pub proof fn lemma_done_observed_in_one_poll(
    v: AppView,
    succeeded: bool,
    snapshot: Seq<char>,
    listing: Seq<Seq<char>>,
)
    ensures
        completed(v, succeeded, snapshot, listing).state == if succeeded {
            AppState::Done
        } else {
            AppState::Error
        },
        completed(v, succeeded, snapshot, listing).name == v.name,
        completed(v, succeeded, snapshot, listing).url == v.url,
        completed(v, succeeded, snapshot, listing).output == snapshot,
{
}

/// Law: a keystroke never moves the machine backwards: it either keeps
/// the state or advances it one step along the entry path, and it leaves
/// an entry state only with that state's text non-empty.
pub proof fn lemma_step_moves_forward(v: AppView, key: KeyInput)
    ensures
        step(v, key).0.state == v.state || (v.state == AppState::InputPlaylistName && step(
            v,
            key,
        ).0.state == AppState::InputUrl && step(v, key).0.name.len() > 0) || (v.state
            == AppState::InputUrl && step(v, key).0.state == AppState::Downloading && step(
            v,
            key,
        ).0.url.len() > 0),
{
}

/// Law: confirming while the entered text is still empty is a no-op: the
/// state does not advance and nothing changes.
pub proof fn lemma_confirm_empty_is_noop(v: AppView)
    requires
        (v.state == AppState::InputPlaylistName && v.name.len() == 0) || (v.state
            == AppState::InputUrl && v.url.len() == 0),
    ensures
        step(v, KeyInput::Confirm).0 == v,
        step(v, KeyInput::Confirm).1 == Action::Continue,
{
}

} // verus!
