use vstd::prelude::*;

use crate::game::string_views;

verus! {

/// The screens of the corpus loader.
pub enum CorpusLoaderState {
    /// Waiting for the corpus URL; `has_error` marks a failed submission.
    UrlInput { has_error: bool },
    /// The corpus is being fetched.
    Loading,
    /// The fetched corpus is shown.
    ShowCorpus { words: Vec<String> },
    /// Fetching the corpus failed.
    Error,
}

/// What happened to the loader.
pub enum CorpusLoaderEvent {
    /// The URL form was submitted; `url` is what the input field held, if it could be read.
    CorpusUrlSubmitted { url: Option<String> },
    /// The user asked to clear the error.
    ResetError,
    /// The fetch finished with these words.
    CorpusLoaded { words: Vec<String> },
    /// The fetch failed.
    CorpusError,
}

/// What the loader asks its host to do next.
pub enum CorpusLoaderAction {
    Nothing,
    /// Fetch the corpus at `url`, and report back with `CorpusLoaded` or `CorpusError`.
    Fetch { url: String },
}

/// The outcome of one event: the next state, whether the view must be drawn
/// again, and the work to start.
pub struct CorpusLoaderStep {
    pub state: CorpusLoaderState,
    pub redraw: bool,
    pub action: CorpusLoaderAction,
}

/// The step the loader takes from `state` on `event`.
pub open spec fn loader_step(state: CorpusLoaderState, event: CorpusLoaderEvent) -> CorpusLoaderStep {
    match event {
        CorpusLoaderEvent::CorpusUrlSubmitted { url } => match state {
            CorpusLoaderState::UrlInput { .. } => match url {
                Some(u) => CorpusLoaderStep {
                    state: CorpusLoaderState::Loading,
                    redraw: true,
                    action: CorpusLoaderAction::Fetch { url: u },
                },
                None => CorpusLoaderStep {
                    state: CorpusLoaderState::UrlInput { has_error: true },
                    redraw: true,
                    action: CorpusLoaderAction::Nothing,
                },
            },
            _ => CorpusLoaderStep { state, redraw: false, action: CorpusLoaderAction::Nothing },
        },
        CorpusLoaderEvent::ResetError => match state {
            CorpusLoaderState::UrlInput { has_error: true } => CorpusLoaderStep {
                state: CorpusLoaderState::UrlInput { has_error: false },
                redraw: true,
                action: CorpusLoaderAction::Nothing,
            },
            CorpusLoaderState::Error => CorpusLoaderStep {
                state: CorpusLoaderState::UrlInput { has_error: false },
                redraw: true,
                action: CorpusLoaderAction::Nothing,
            },
            _ => CorpusLoaderStep { state, redraw: false, action: CorpusLoaderAction::Nothing },
        },
        CorpusLoaderEvent::CorpusLoaded { words } => CorpusLoaderStep {
            state: CorpusLoaderState::ShowCorpus { words },
            redraw: true,
            action: CorpusLoaderAction::Nothing,
        },
        CorpusLoaderEvent::CorpusError => CorpusLoaderStep {
            state: CorpusLoaderState::Error,
            redraw: true,
            action: CorpusLoaderAction::Nothing,
        },
    }
}

impl CorpusLoaderState {
    /// The loader's first screen.
    pub fn create() -> (r: CorpusLoaderState)
        ensures
            r == (CorpusLoaderState::UrlInput { has_error: false }),
    {
        CorpusLoaderState::UrlInput { has_error: false }
    }

    /// Decides what the loader does on `event`.
    pub fn update(self, event: CorpusLoaderEvent) -> (r: CorpusLoaderStep)
        ensures
            r == loader_step(self, event),
    {
        match event {
            CorpusLoaderEvent::CorpusUrlSubmitted { url } => match self {
                CorpusLoaderState::UrlInput { .. } => match url {
                    Some(u) => CorpusLoaderStep {
                        state: CorpusLoaderState::Loading,
                        redraw: true,
                        action: CorpusLoaderAction::Fetch { url: u },
                    },
                    None => CorpusLoaderStep {
                        state: CorpusLoaderState::UrlInput { has_error: true },
                        redraw: true,
                        action: CorpusLoaderAction::Nothing,
                    },
                },
                _ => CorpusLoaderStep { state: self, redraw: false, action: CorpusLoaderAction::Nothing },
            },
            CorpusLoaderEvent::ResetError => match self {
                CorpusLoaderState::UrlInput { has_error } => {
                    if has_error {
                        CorpusLoaderStep {
                            state: CorpusLoaderState::UrlInput { has_error: false },
                            redraw: true,
                            action: CorpusLoaderAction::Nothing,
                        }
                    } else {
                        CorpusLoaderStep { state: self, redraw: false, action: CorpusLoaderAction::Nothing }
                    }
                },
                CorpusLoaderState::Error => CorpusLoaderStep {
                    state: CorpusLoaderState::UrlInput { has_error: false },
                    redraw: true,
                    action: CorpusLoaderAction::Nothing,
                },
                _ => CorpusLoaderStep { state: self, redraw: false, action: CorpusLoaderAction::Nothing },
            },
            CorpusLoaderEvent::CorpusLoaded { words } => CorpusLoaderStep {
                state: CorpusLoaderState::ShowCorpus { words },
                redraw: true,
                action: CorpusLoaderAction::Nothing,
            },
            CorpusLoaderEvent::CorpusError => CorpusLoaderStep {
                state: CorpusLoaderState::Error,
                redraw: true,
                action: CorpusLoaderAction::Nothing,
            },
        }
    }
}

/// What `str::lines` splits a text into.
pub uninterp spec fn lines_of(text: Seq<char>) -> Seq<Seq<char>>;

/// Relies on `str::lines`: the lines depend on the characters alone.
#[verifier::external_body]
fn text_lines(text: &str) -> (r: Vec<String>)
    ensures
        string_views(r@) == lines_of(text@),
{
    text.lines().map(|line| line.to_string()).collect()
}

/// The words of a fetched corpus text, one per line.
pub fn corpus_from_text(text: &str) -> (r: Vec<String>)
    ensures
        string_views(r@) == lines_of(text@),
{
    text_lines(text)
}

} // verus!
