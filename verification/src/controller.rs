use vstd::prelude::*;
use vstd::string::StringExecFns;

use crate::config::Config;
use crate::engine::TimerHandle;
use crate::engine::parse_run;
use crate::engine::split_transition;

verus! {

/// Why a load attempt failed: the candidate file does not exist, or its
/// content did not yield a usable run.
pub enum LoadError {
    NotFound,
    Invalid(String),
}

/// The inputs the session reacts to, already stripped of everything the
/// terminal layer adds: the three bound keys, a pasted text, or anything
/// else (which the session ignores).
pub enum InputEvent {
    CtrlC,
    Space,
    CtrlO,
    Paste(String),
    Other,
}

/// What the caller that runs the event loop must do next. Opening the file
/// dialog and touching the filesystem are its affair; `LoadRequest` carries
/// a pasted candidate path whose existence it must check before reading.
pub enum Action {
    Continue,
    Quit,
    OpenDialog,
    LoadRequest(String),
}

/// The session's whole state: the loaded timer, if a run has loaded, and
/// the in-memory copy of the persisted settings.
pub struct App {
    pub timer: Option<TimerHandle>,
    pub config: Config,
}

impl App {
    /// A fresh session: no run loaded yet, settings as handed in.
    pub fn new(config: Config) -> (app: App)
        ensures
            app.timer is None,
            app.config == config,
    {
        App { timer: None, config }
    }

    /// Attempts to swap in the run read from `path`. The caller hands in the
    /// file's bytes, or `None` when the file does not exist. Loading is
    /// all-or-nothing: on success the timer is replaced by a fresh one and
    /// the remembered path is updated, together; on any failure neither is
    /// touched.
    pub fn load_run(&mut self, path: String, bytes: Option<Vec<u8>>) -> (r: Result<(), LoadError>)
        ensures
            r is Ok ==> (final(self).timer matches Some(t) && t.position() is None),
            r is Ok ==> (final(self).config.split_file matches Some(p) && p@ == path@),
            r is Err ==> final(self).timer == old(self).timer && final(self).config == old(
                self,
            ).config,
            bytes is None <==> (r matches Err(e) && e is NotFound),
    {
        let b = match bytes {
            None => {
                return Err(LoadError::NotFound);
            },
            Some(b) => b,
        };
        let run = match parse_run(b.as_slice(), path.as_str()) {
            Ok(run) => run,
            Err(msg) => {
                return Err(LoadError::Invalid(msg));
            },
        };
        let handle = match TimerHandle::new(run) {
            Some(h) => h,
            None => {
                return Err(LoadError::Invalid(String::from_str("the run has no segments")));
            },
        };
        self.timer = Some(handle);
        self.config.split_file = Some(path);
        Ok(())
    }

    /// One step of the session's state machine. Quitting wins over
    /// everything; `Space` drives the timer when a run is loaded and does
    /// nothing otherwise; `Ctrl+O` and a paste only request work from the
    /// caller; all other input is ignored. No event touches the settings.
    pub fn handle_event(&mut self, ev: InputEvent) -> (a: Action)
        ensures
            a is Quit <==> ev is CtrlC,
            a is OpenDialog <==> ev is CtrlO,
            a is LoadRequest <==> ev is Paste,
            ev matches InputEvent::Paste(p) ==> a matches Action::LoadRequest(q) && q@ == p@,
            final(self).config == old(self).config,
            !(ev is Space) ==> final(self).timer == old(self).timer,
            ev is Space && old(self).timer is None ==> final(self).timer is None,
            ev is Space ==> (old(self).timer matches Some(t) ==> (final(self).timer matches Some(
                t2,
            ) && split_transition(t, t2))),
    {
        match ev {
            InputEvent::CtrlC => Action::Quit,
            InputEvent::Space => {
                if let Some(t) = &mut self.timer {
                    t.split_or_start();
                }
                Action::Continue
            },
            InputEvent::CtrlO => Action::OpenDialog,
            InputEvent::Paste(p) => Action::LoadRequest(p),
            InputEvent::Other => Action::Continue,
        }
    }
}

} // verus!
