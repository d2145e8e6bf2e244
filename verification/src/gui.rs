//! The settings state machine: the persisted configuration values and the
//! dialog states the window cycles through.  Drawing the window is the UI
//! collaborator's business; every decision its buttons take is a method
//! here.

use vstd::prelude::*;

use crate::lifecycle::{spec_url_ok, url_parse_ok};

verus! {

/// The persisted configuration: the relay base URL, whether syncing is
/// paused, and whether this is the first run (no configuration existed yet).
/// Loading and saving the file is the caller's business.
pub struct Config {
    pub server_url: String,
    pub sync_paused: bool,
    pub first_run: bool,
}

impl Config {
    /// A configuration from loaded (or defaulted) values.
    pub fn new(server_url: String, sync_paused: bool, first_run: bool) -> (r: Config)
        ensures
            r.server_url == server_url,
            r.sync_paused == sync_paused,
            r.first_run == first_run,
    {
        Config { server_url, sync_paused, first_run }
    }

    /// Whether no configuration existed when this one was loaded.
    pub fn is_first_run(&self) -> (r: bool)
        ensures
            r == self.first_run,
    {
        self.first_run
    }

    /// Records a confirmed URL change; once a URL is saved the first-run
    /// setup is over.
    pub fn set_server_url(&mut self, url: String)
        ensures
            *final(self) == (Config { server_url: url, first_run: false, ..*old(self) }),
    {
        self.server_url = url;
        self.first_run = false;
    }

    /// Flips the pause state and returns the new value.
    pub fn toggle_sync_pause(&mut self) -> (paused: bool)
        ensures
            *final(self) == (Config { sync_paused: !old(self).sync_paused, ..*old(self) }),
            paused == !old(self).sync_paused,
    {
        self.sync_paused = !self.sync_paused;
        self.sync_paused
    }
}

/// Which dialog the settings window shows.
#[derive(Clone, Copy, Debug, PartialEq, Eq, Structural)]
pub enum AppState {
    /// First-time setup: asking for the relay URL.
    FirstTimeSetup,
    /// Changing the relay URL later.
    ChangingUrl,
    /// Normal operation: the window is hidden.
    Running,
    /// The settings dialog.
    Settings,
}

/// State of the connection test the setup dialog offers.
#[derive(Debug)]
pub enum ConnectionStatus {
    NotTested,
    Testing,
    Success,
    Failed(String),
}

/// The settings window's state: configuration, dialog state, the URL input
/// field, the connection test result, and whether the application should
/// exit.
pub struct ClipboardApp {
    pub config: Config,
    pub state: AppState,
    pub server_url_input: String,
    pub connection_status: ConnectionStatus,
    pub error_message: Option<String>,
    pub should_exit: bool,
}

impl ClipboardApp {
    /// Starts in first-time setup when no configuration existed, hidden
    /// otherwise.
    pub fn new(config: Config) -> (r: ClipboardApp)
        ensures
            r.config == config,
            r.state == (if config.first_run {
                AppState::FirstTimeSetup
            } else {
                AppState::Running
            }),
            r.server_url_input == config.server_url,
            r.connection_status is NotTested,
            r.error_message is None,
            !r.should_exit,
    {
        let state = if config.is_first_run() {
            AppState::FirstTimeSetup
        } else {
            AppState::Running
        };
        let server_url_input = config.server_url.clone();
        ClipboardApp {
            config,
            state,
            server_url_input,
            connection_status: ConnectionStatus::NotTested,
            error_message: None,
            should_exit: false,
        }
    }

    /// Whether the application should exit.
    pub fn should_exit(&self) -> (r: bool)
        ensures
            r == self.should_exit,
    {
        self.should_exit
    }

    /// The current configuration.
    pub fn config(&self) -> (r: &Config)
        ensures
            *r == self.config,
    {
        &self.config
    }

    /// Brings the settings dialog to the front.
    pub fn show(&mut self)
        ensures
            *final(self) == (ClipboardApp { state: AppState::Settings, ..*old(self) }),
    {
        self.state = AppState::Settings;
    }

    /// Switches to the URL-change dialog with a fresh test state.
    pub fn change_server_url(&mut self)
        ensures
            *final(self) == (ClipboardApp {
                state: AppState::ChangingUrl,
                connection_status: ConnectionStatus::NotTested,
                error_message: None,
                ..*old(self)
            }),
    {
        self.state = AppState::ChangingUrl;
        self.connection_status = ConnectionStatus::NotTested;
        self.error_message = None;
    }

    /// Flips the sync pause state and returns the new value.
    pub fn toggle_sync(&mut self) -> (paused: bool)
        ensures
            *final(self) == (ClipboardApp {
                config: Config { sync_paused: !old(self).config.sync_paused, ..old(self).config },
                ..*old(self)
            }),
            paused == !old(self).config.sync_paused,
    {
        self.config.toggle_sync_pause()
    }

    /// Validates the URL in the input field: a well-formed URL passes the
    /// test, a malformed one is a configuration failure shown to the user.
    pub fn begin_connection_test(&mut self)
        ensures
            spec_url_ok(old(self).server_url_input@) ==> *final(self) == (ClipboardApp {
                connection_status: ConnectionStatus::Success,
                error_message: None,
                ..*old(self)
            }),
            !spec_url_ok(old(self).server_url_input@) ==> final(self).connection_status is Failed
                && final(self).error_message is Some && final(self).config == old(self).config
                && final(self).state == old(self).state && final(self).server_url_input == old(
                self,
            ).server_url_input && final(self).should_exit == old(self).should_exit,
    {
        if url_parse_ok(self.server_url_input.as_str()) {
            self.connection_status = ConnectionStatus::Success;
            self.error_message = None;
        } else {
            self.connection_status = ConnectionStatus::Failed(
                String::from_str("invalid URL format"),
            );
            self.error_message = Some(String::from_str("invalid URL format"));
        }
    }

    /// Applies an asynchronous connection test result: success saves the
    /// entered URL and hides the window, failure is shown to the user.
    pub fn handle_connection_test_result(&mut self, result: Result<(), String>)
        ensures
            result is Ok ==> *final(self) == (ClipboardApp {
                connection_status: ConnectionStatus::Success,
                error_message: None,
                config: Config {
                    server_url: old(self).server_url_input,
                    first_run: false,
                    ..old(self).config
                },
                state: AppState::Running,
                ..*old(self)
            }),
            (result matches Err(e) ==> *final(self) == (ClipboardApp {
                connection_status: ConnectionStatus::Failed(e),
                error_message: Some(e),
                ..*old(self)
            })),
    {
        match result {
            Ok(()) => {
                self.connection_status = ConnectionStatus::Success;
                self.error_message = None;
                let url = self.server_url_input.clone();
                self.config.set_server_url(url);
                self.state = AppState::Running;
            },
            Err(e) => {
                self.error_message = Some(e.clone());
                self.connection_status = ConnectionStatus::Failed(e);
            },
        }
    }

    /// Saves the entered URL when the connection test succeeded and returns
    /// to normal operation; without a successful test nothing happens.
    pub fn save_and_continue(&mut self) -> (saved: bool)
        ensures
            saved == (old(self).connection_status is Success),
            saved ==> *final(self) == (ClipboardApp {
                config: Config {
                    server_url: old(self).server_url_input,
                    first_run: false,
                    ..old(self).config
                },
                state: AppState::Running,
                ..*old(self)
            }),
            !saved ==> *final(self) == *old(self),
    {
        let ok = match &self.connection_status {
            ConnectionStatus::Success => true,
            _ => false,
        };
        if ok {
            let url = self.server_url_input.clone();
            self.config.set_server_url(url);
            self.state = AppState::Running;
            true
        } else {
            false
        }
    }

    /// Abandons a URL change: the input falls back to the saved URL and the
    /// window hides.
    pub fn cancel_url_change(&mut self)
        ensures
            *final(self) == (ClipboardApp {
                server_url_input: old(self).config.server_url,
                state: AppState::Running,
                connection_status: ConnectionStatus::NotTested,
                error_message: None,
                ..*old(self)
            }),
    {
        self.server_url_input = self.config.server_url.clone();
        self.state = AppState::Running;
        self.connection_status = ConnectionStatus::NotTested;
        self.error_message = None;
    }

    /// Closes the settings dialog back to normal operation.
    pub fn close_settings(&mut self)
        ensures
            *final(self) == (ClipboardApp { state: AppState::Running, ..*old(self) }),
    {
        self.state = AppState::Running;
    }

    /// Asks the application to exit.
    pub fn request_exit(&mut self)
        ensures
            *final(self) == (ClipboardApp { should_exit: true, ..*old(self) }),
    {
        self.should_exit = true;
    }

    /// A window-close event exits only during setup; in normal operation the
    /// window merely hides.
    pub fn on_exit_event(&mut self) -> (exit: bool)
        ensures
            old(self).state is Running ==> *final(self) == *old(self) && !exit,
            !(old(self).state is Running) ==> *final(self) == (ClipboardApp {
                should_exit: true,
                ..*old(self)
            }) && exit,
    {
        if self.state == AppState::Running {
            false
        } else {
            self.should_exit = true;
            true
        }
    }
}

} // verus!
