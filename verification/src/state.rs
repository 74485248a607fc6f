//! The application's state and how each message changes it. Every handler returns
//! the outside work that the message calls for as an `Effect`; the caller performs it
//! and feeds the outcome back as another message.
use vstd::prelude::*;
use crate::auth::{AuthMessage, DeviceCodeInfo};
use crate::base_form::{base_change_allowed, handle_base_changes, BaseFormMessage, EditableForm};
use crate::config::{config_name_error, config_name_ok, validate_config_name, ConfigMessage};
use crate::poll::{lemma_poll_option_limits, PollBarTabId, PollMessage, PollRun, PollState, PollTab};
use crate::prediction::{switch_options, PredictionMessage, PredictionRun, PredictionState, PredictionTab};
use crate::settings::{Separator, Settings, SettingsMessage};
use crate::text::{owned, push_str};
use crate::twitch_api::{prediction_state_url_spec, query_url, PREDICTION_URL};
use crate::twitch_types::{
    CreatePollRequest, CreatePredictionRequest, CreatePredictionResponseData, EndPredictionRequest,
    PollChoice, PollPhase, PollStateData, PredictionStatus,
};

verus! {

/// The tabs of the main window.
#[derive(Debug, Clone, Copy, PartialEq, Eq, Structural)]
pub enum TabId {
    Misc,
    Poll,
    Prediction,
}

impl Default for TabId {
    fn default() -> (t: Self)
        ensures
            t == TabId::Prediction,
    {
        TabId::Prediction
    }
}

impl TabId {
    pub open spec fn spec_idx(self) -> usize {
        match self {
            TabId::Misc => 2,
            TabId::Poll => 1,
            TabId::Prediction => 0,
        }
    }

    /// Position of the tab in the tab bar.
    pub fn idx(self) -> (i: usize)
        ensures
            i == self.spec_idx(),
    {
        match self {
            TabId::Misc => 2,
            TabId::Poll => 1,
            TabId::Prediction => 0,
        }
    }

    pub open spec fn spec_from_idx(idx: usize) -> TabId {
        if idx == 1 {
            TabId::Poll
        } else if idx == 2 {
            TabId::Misc
        } else {
            TabId::Prediction
        }
    }

    /// The tab at a position of the tab bar; positions past the end select the
    /// prediction tab.
    pub fn from_idx(idx: usize) -> (t: Self)
        ensures
            t == Self::spec_from_idx(idx),
    {
        match idx {
            0 => TabId::Prediction,
            1 => TabId::Poll,
            2 => TabId::Misc,
            _ => TabId::Prediction,
        }
    }
}

/// The tab that Ctrl plus a key selects: `1`, `2` and `3` in tab-bar order.
pub fn tab_for_shortcut(key: char) -> (t: Option<TabId>)
    ensures
        key == '1' ==> t == Some(TabId::Prediction),
        key == '2' ==> t == Some(TabId::Poll),
        key == '3' ==> t == Some(TabId::Misc),
        key != '1' && key != '2' && key != '3' ==> t is None,
{
    if key == '1' {
        Some(TabId::Prediction)
    } else if key == '2' {
        Some(TabId::Poll)
    } else if key == '3' {
        Some(TabId::Misc)
    } else {
        None
    }
}

/// Which running poll or prediction is refreshed every second.
#[derive(Debug, Clone, Copy, PartialEq, Eq, Structural)]
pub enum AppPolling {
    Not,
    Prediction,
    Poll,
}

/// A question to the user with the messages its answers send.
#[derive(Debug, Clone)]
pub struct Confirm {
    pub message: String,
    pub on_yes: Message,
    pub on_no: Option<Message>,
}

/// The folder a kind of form configuration is saved in.
#[derive(Debug, Clone, Copy, PartialEq, Eq, Structural)]
pub enum ConfigKind {
    Polls,
    Predictions,
}

impl ConfigKind {
    pub open spec fn spec_subdir(self) -> Seq<char> {
        match self {
            ConfigKind::Polls => "polls"@,
            ConfigKind::Predictions => "predictions"@,
        }
    }

    /// Name of the folder under the config directory.
    pub fn subdir(self) -> (s: &'static str)
        ensures
            s@ == self.spec_subdir(),
    {
        match self {
            ConfigKind::Polls => "polls",
            ConfigKind::Predictions => "predictions",
        }
    }
}

/// Everything that can happen in the application.
#[derive(Debug, Clone)]
pub enum Message {
    Auth(AuthMessage),
    TabSelected(usize),
    Poll(PollMessage),
    Prediction(PredictionMessage),
    Settings(SettingsMessage),
    Error(String),
    ClearError,
    PredictionTick,
    PredictionPolled(Result<CreatePredictionResponseData, String>),
    PollTick,
    PollPolled(Result<PollStateData, String>),
}

/// Outside work that a message calls for. Each variant says what to do and which
/// message reports the outcome.
#[derive(Debug)]
pub enum Effect {
    /// Nothing to do.
    Nothing,
    /// Handle this message next.
    Dispatch(Message),
    /// Log the text as an error and then handle `Message::Error` with it.
    Report(String),
    /// Log the text as an error.
    Log(String),
    /// Start a poll; report with `PollMessage::PollCreated`.
    CreatePoll { access_token: String, request: CreatePollRequest },
    /// End a poll early; report with `PollMessage::PollEnded`.
    EndPoll { access_token: String, broadcaster_id: String, poll_id: String },
    /// Read a poll; report with `Message::PollPolled`.
    CheckPoll { access_token: String, broadcaster_id: String, poll_id: String },
    /// Start a prediction; report with `PredictionMessage::PredictionCreated`.
    CreatePrediction { access_token: String, request: CreatePredictionRequest },
    /// Move a prediction to `status` (resolved, locked or canceled); report with
    /// `PredictionEnded`, `PredictionLocked` or `PredictionCanceled` respectively.
    ChangePrediction { access_token: String, request: EndPredictionRequest, status: PredictionStatus },
    /// Read a prediction; report with `Message::PredictionPolled`.
    CheckPrediction { access_token: String, broadcaster_id: String, prediction_id: String },
    /// Write the tab's current form as config `name` and list the folder again; report
    /// with the tab's `ConfigSaved`.
    SaveConfig { kind: ConfigKind, name: String },
    /// Read config `name`; report a config that could be read with the tab's `ConfigLoaded`.
    LoadConfig { kind: ConfigKind, name: String },
    /// Write the settings; use `separator` for numbers from now on when it is given.
    SaveSettings { separator: Option<Separator> },
    /// Ask Twitch for a device code and open the verification page; report with
    /// `AuthMessage::DeviceCodeReceived`.
    RequestDeviceCode,
    /// Poll the token endpoint until the user authorized; report with `AuthMessage::AuthCompleted`.
    PollForTokens { device_code: String, interval: u64, expires_in: u64 },
    /// Save the tokens to the keyring (or its file fallback); report with `AuthMessage::TokensStored`.
    StoreTokens { access_token: String, refresh_token: String },
    /// Save the tokens to the token file, then handle `AuthMessage::ValidateToken`.
    StoreTokensInFile { access_token: String, refresh_token: String },
    /// Ask Twitch whether the token is valid; report with `AuthMessage::TokenValidated`.
    ValidateToken { access_token: String },
    /// Wait a while and then handle `AuthMessage::ValidateToken`; `reason` is logged.
    RetryValidation { reason: String },
    /// Exchange the refresh token for new tokens; report with `AuthMessage::AuthCompleted`.
    RefreshToken { refresh_token: String },
}

/// The state of the whole application.
#[derive(Debug)]
pub struct App {
    pub broadcaster_id: Option<String>,
    pub access_token: Option<String>,
    pub refresh_token: Option<String>,
    pub auth_status: String,
    pub device_code_info: Option<DeviceCodeInfo>,
    pub auth_in_progress: bool,
    pub refresh_attempted: bool,
    pub confirm: Option<Confirm>,
    pub polling: AppPolling,
    pub active_tab: TabId,
    pub err: String,
    pub poll: PollTab,
    pub prediction: PredictionTab,
    pub settings: Settings,
    pub sample: bool,
}

/// The message when no one is logged in.
pub open spec fn not_logged_in_message() -> Seq<char> {
    "Not logged in, please log in with Twitch first."@
}

/// The question asked when the tokens could not be saved to the keyring.
pub open spec fn fallback_question() -> Seq<char> {
    "Could not save tokens to the Operating System's keystore.\nDo you want the tokens saved to a file? This is not recommended since it might leak the tokens to other processes.\nIf \"No\", you'll have to re-authenticate every time you restart the app."@
}

/// The message when the broadcaster id is not known yet.
pub open spec fn no_broadcaster_message() -> Seq<char> {
    "Broadcaster id unknown, please log in with Twitch again."@
}

/// `req` asks for a poll with the form's title, options, duration (in seconds) and
/// channel-point settings on behalf of `broadcaster_id`.
pub open spec fn poll_request_from(req: CreatePollRequest, form: PollState, broadcaster_id: String) -> bool {
    &&& req.broadcaster_id == broadcaster_id
    &&& req.title == form.title
    &&& req.choices@.len() == form.options@.len()
    &&& forall|i: int| 0 <= i < form.options@.len() ==> (#[trigger] req.choices@[i]).title == form.options@[i]
    &&& req.duration == form.duration * 60
    &&& req.channel_points_voting_enabled == form.uses_channel_points
    &&& req.channel_points_per_vote == form.channel_point_cost
}

/// `req` asks for a prediction with the form's title, options and window (in seconds)
/// on behalf of `broadcaster_id`.
pub open spec fn prediction_request_from(
    req: CreatePredictionRequest,
    form: PredictionState,
    broadcaster_id: String,
) -> bool {
    &&& req.broadcaster_id == broadcaster_id
    &&& req.title == form.title
    &&& req.outcomes@.len() == form.options@.len()
    &&& forall|i: int| 0 <= i < form.options@.len() ==> (#[trigger] req.outcomes@[i]).title == form.options@[i]
    &&& req.prediction_window == form.duration * 60
}

fn choices_from(options: &Vec<String>) -> (c: Vec<PollChoice>)
    ensures
        c@.len() == options@.len(),
        forall|i: int| 0 <= i < options@.len() ==> (#[trigger] c@[i]).title == options@[i],
{
    let mut c: Vec<PollChoice> = Vec::new();
    let mut i: usize = 0;
    while i < options.len()
        invariant
            i <= options@.len(),
            c@.len() == i,
            forall|k: int| 0 <= k < i ==> (#[trigger] c@[k]).title == options@[k],
        decreases options@.len() - i,
    {
        c.push(PollChoice { title: options[i].clone() });
        i = i + 1;
    }
    c
}

impl App {
    /// The access token and broadcaster id that requests to Twitch need, or why they
    /// are missing.
    pub fn require_token_and_broadcaster_id(&self) -> (r: Result<(String, String), String>)
        ensures
            self.access_token is None ==> (r matches Err(e) && e@ == not_logged_in_message()),
            self.access_token is Some && self.broadcaster_id is None ==> (r matches Err(e) && e@
                == no_broadcaster_message()),
            self.access_token matches Some(t) ==> (self.broadcaster_id matches Some(b) ==> r == Ok::<
                (String, String),
                String,
            >((t, b))),
    {
        match (&self.access_token, &self.broadcaster_id) {
            (Some(t), Some(b)) => Ok((t.clone(), b.clone())),
            (None, _) => Err(owned("Not logged in, please log in with Twitch first.")),
            (Some(_), None) => Err(owned("Broadcaster id unknown, please log in with Twitch again.")),
        }
    }

    /// Everything but the poll tab and the refresh mode is as in `other`.
    pub open spec fn same_but_poll(&self, other: &App) -> bool {
        &&& self.broadcaster_id == other.broadcaster_id
        &&& self.access_token == other.access_token
        &&& self.refresh_token == other.refresh_token
        &&& self.auth_status == other.auth_status
        &&& self.device_code_info == other.device_code_info
        &&& self.auth_in_progress == other.auth_in_progress
        &&& self.refresh_attempted == other.refresh_attempted
        &&& self.confirm == other.confirm
        &&& self.active_tab == other.active_tab
        &&& self.err == other.err
        &&& self.prediction == other.prediction
        &&& self.settings == other.settings
        &&& self.sample == other.sample
    }

    /// A poll message is handled without panicking: removing an option names an
    /// existing one, and the duration in seconds fits a `usize` when submitting.
    pub open spec fn poll_message_ok(&self, m: PollMessage) -> bool {
        match m {
            PollMessage::BaseFormChange(b) => base_change_allowed(self.poll.form.options@, 2, b),
            PollMessage::Submit => self.poll.form.duration * 60 <= usize::MAX,
            _ => true,
        }
    }

    fn set_poll_run(&mut self, result: Result<PollStateData, String>) -> (e: Effect)
        ensures
            match result {
                Ok(d) => {
                    &&& final(self).poll.run == PollRun::Live(d)
                    &&& final(self).polling == old(self).polling
                    &&& final(self).poll.form == old(self).poll.form
                    &&& final(self).poll.configs == old(self).poll.configs
                    &&& final(self).poll.active_tab == old(self).poll.active_tab
                    &&& final(self).same_but_poll(&*old(self))
                    &&& e == Effect::Nothing
                },
                Err(err) => {
                    &&& *final(self) == *old(self)
                    &&& e == Effect::Dispatch(Message::Error(err))
                },
            },
    {
        match result {
            Ok(d) => {
                self.poll.run = PollRun::Live(d);
                Effect::Nothing
            },
            Err(e) => Effect::Dispatch(Message::Error(e)),
        }
    }

    /// How a poll message changes the state and which effect it asks for.
    pub open spec fn poll_step(pre: App, poll_message: PollMessage, post: App, e: Effect) -> bool {
    &&& match poll_message {
        PollMessage::Submit => {
            &&& post == pre
            &&& match pre.access_token {
                None => e matches Effect::Report(m) && m@ == not_logged_in_message(),
                Some(t) => match pre.broadcaster_id {
                    None => e matches Effect::Report(m) && m@ == no_broadcaster_message(),
                    Some(b) => e matches Effect::CreatePoll { access_token, request }
                        && access_token == t && poll_request_from(request, pre.poll.form, b),
                },
            }
        },
        PollMessage::PollCreated(r) | PollMessage::PollEnded(r) => match r {
            Ok(d) => {
                &&& post.poll.run == PollRun::Live(d)
                &&& post.polling == pre.polling
                &&& post.poll.form == pre.poll.form
                &&& post.poll.configs == pre.poll.configs
                &&& post.poll.active_tab == pre.poll.active_tab
                &&& post.same_but_poll(&pre)
                &&& e == Effect::Nothing
            },
            Err(err) => post == pre && e == Effect::Dispatch(Message::Error(err)),
        },
        PollMessage::ChannelPointsToggled(t) => {
            &&& post.poll.form == PollState { uses_channel_points: t, ..pre.poll.form }
            &&& post.poll.run == pre.poll.run
            &&& post.poll.configs == pre.poll.configs
            &&& post.poll.active_tab == pre.poll.active_tab
            &&& post.polling == pre.polling
            &&& post.same_but_poll(&pre)
            &&& e == Effect::Nothing
        },
        PollMessage::PointCostChange(c) => {
            &&& post.poll.form == PollState { channel_point_cost: c, ..pre.poll.form }
            &&& post.poll.run == pre.poll.run
            &&& post.poll.configs == pre.poll.configs
            &&& post.poll.active_tab == pre.poll.active_tab
            &&& post.polling == pre.polling
            &&& post.same_but_poll(&pre)
            &&& e == Effect::Nothing
        },
        PollMessage::EndPoll => {
            &&& post == pre
            &&& match pre.access_token {
                None => e matches Effect::Report(m) && m@ == not_logged_in_message(),
                Some(t) => match pre.broadcaster_id {
                    None => e matches Effect::Report(m) && m@ == no_broadcaster_message(),
                    Some(b) => match pre.poll.run {
                        PollRun::Idle => e matches Effect::Report(m)
                            && m@ == "No current poll when trying to end a poll"@,
                        PollRun::Live(d) => e == Effect::EndPoll {
                            access_token: t,
                            broadcaster_id: b,
                            poll_id: d.id,
                        },
                    },
                },
            }
        },
        PollMessage::Config(c) => match c {
            ConfigMessage::Save => {
                &&& post == pre
                &&& if config_name_ok(pre.poll.form.name@) {
                    e == Effect::SaveConfig { kind: ConfigKind::Polls, name: pre.poll.form.name }
                } else {
                    e matches Effect::Dispatch(Message::Error(m)) && m@ == config_name_error(
                        pre.poll.form.name@,
                    )
                }
            },
            ConfigMessage::New => {
                &&& post.poll.form.name@ == Seq::<char>::empty()
                &&& post.poll.form.title == pre.poll.form.title
                &&& post.poll.form.options == pre.poll.form.options
                &&& post.poll.form.duration == pre.poll.form.duration
                &&& post.poll.form.uses_channel_points == pre.poll.form.uses_channel_points
                &&& post.poll.form.channel_point_cost == pre.poll.form.channel_point_cost
                &&& !post.poll.configs.loaded
                &&& post.poll.configs.selected is None
                &&& post.poll.configs.items == pre.poll.configs.items
                &&& post.poll.run == pre.poll.run
                &&& post.poll.active_tab == pre.poll.active_tab
                &&& post.polling == pre.polling
                &&& post.same_but_poll(&pre)
                &&& e == Effect::Nothing
            },
            ConfigMessage::NameChanged(n) => {
                &&& post.poll.form == PollState { name: n, ..pre.poll.form }
                &&& post.poll.run == pre.poll.run
                &&& post.poll.configs == pre.poll.configs
                &&& post.poll.active_tab == pre.poll.active_tab
                &&& post.polling == pre.polling
                &&& post.same_but_poll(&pre)
                &&& e == Effect::Nothing
            },
            ConfigMessage::ConfigSelected(n) => {
                &&& post == pre
                &&& e == Effect::LoadConfig { kind: ConfigKind::Polls, name: n }
            },
        },
        PollMessage::ConfigSaved(n, r) => match r {
            Ok(files) => {
                &&& post.poll.configs.items == files
                &&& post.poll.configs.selected == Some(n)
                &&& post.poll.configs.loaded
                &&& post.poll.form == pre.poll.form
                &&& post.poll.run == pre.poll.run
                &&& post.poll.active_tab == pre.poll.active_tab
                &&& post.polling == pre.polling
                &&& post.same_but_poll(&pre)
                &&& e == Effect::Nothing
            },
            Err(err) => post == pre && e == Effect::Dispatch(Message::Error(err)),
        },
        PollMessage::ConfigLoaded(n, form) => {
            &&& post.poll.form == form
            &&& post.poll.configs.selected == Some(n)
            &&& post.poll.configs.loaded
            &&& post.poll.configs.items == pre.poll.configs.items
            &&& post.poll.run == pre.poll.run
            &&& post.poll.active_tab == pre.poll.active_tab
            &&& post.polling == pre.polling
            &&& post.same_but_poll(&pre)
            &&& e == Effect::Nothing
        },
        PollMessage::LoadSampleData(d) => {
            &&& post.poll.run == PollRun::Live(d)
            &&& post.poll.form == pre.poll.form
            &&& post.poll.configs == pre.poll.configs
            &&& post.poll.active_tab == pre.poll.active_tab
            &&& post.polling == pre.polling
            &&& post.same_but_poll(&pre)
            &&& e == Effect::Nothing
        },
        PollMessage::TabSelected(t) => {
            &&& post.poll.active_tab == t
            &&& post.poll.form == pre.poll.form
            &&& post.poll.run == pre.poll.run
            &&& post.poll.configs == pre.poll.configs
            &&& post.polling == pre.polling
            &&& post.same_but_poll(&pre)
            &&& e == Effect::Nothing
        },
        PollMessage::BaseFormChange(_) => {
            &&& post.poll.form.uses_channel_points == pre.poll.form.uses_channel_points
            &&& post.poll.form.channel_point_cost == pre.poll.form.channel_point_cost
            &&& post.poll.form.name == pre.poll.form.name
            &&& post.poll.run == pre.poll.run
            &&& post.poll.configs == pre.poll.configs
            &&& post.poll.active_tab == pre.poll.active_tab
            &&& post.polling == pre.polling
            &&& post.same_but_poll(&pre)
            &&& e == Effect::Nothing
        },
    }
    // how the shared form part changes, as `handle_base_changes` states it
    &&& poll_message matches PollMessage::BaseFormChange(b) ==> match b {
        BaseFormMessage::TitleChanged(t) => {
            &&& post.poll.form.title@ == t@
            &&& post.poll.form.options@ == pre.poll.form.options@
            &&& post.poll.form.duration == pre.poll.form.duration
        },
        BaseFormMessage::OptionChanged(idx, val) => {
            &&& post.poll.form.title@ == pre.poll.form.title@
            &&& post.poll.form.options@ == if idx < pre.poll.form.options@.len() {
                pre.poll.form.options@.update(idx as int, val)
            } else {
                pre.poll.form.options@
            }
            &&& post.poll.form.duration == pre.poll.form.duration
        },
        BaseFormMessage::AddOption => {
            &&& post.poll.form.title@ == pre.poll.form.title@
            &&& post.poll.form.options@.drop_last() == pre.poll.form.options@
            &&& post.poll.form.options@.len() == pre.poll.form.options@.len() + 1
            &&& post.poll.form.options@.last()@ == Seq::<char>::empty()
            &&& post.poll.form.duration == pre.poll.form.duration
        },
        BaseFormMessage::RemoveOption(idx) => {
            &&& post.poll.form.title@ == pre.poll.form.title@
            &&& post.poll.form.options@ == if pre.poll.form.options@.len() > 2 {
                pre.poll.form.options@.remove(idx as int)
            } else {
                pre.poll.form.options@
            }
            &&& post.poll.form.duration == pre.poll.form.duration
        },
        BaseFormMessage::DurationChanged(d) => {
            &&& post.poll.form.title@ == pre.poll.form.title@
            &&& post.poll.form.options@ == pre.poll.form.options@
            &&& post.poll.form.duration == d
        },
    }
    }

    /// Handles a message of the poll tab.
    #[verifier::rlimit(60)]
    #[verifier::spinoff_prover]
    pub fn handle_poll(&mut self, poll_message: PollMessage) -> (e: Effect)
        requires
            old(self).poll_message_ok(poll_message),
        ensures
            Self::poll_step(*old(self), poll_message, *final(self), e),

    {
        match poll_message {
            PollMessage::Submit => {
                let (token, broadcaster_id) = match self.require_token_and_broadcaster_id() {
                    Ok(v) => v,
                    Err(e) => {
                        return Effect::Report(e);
                    },
                };
                let request = CreatePollRequest {
                    broadcaster_id,
                    title: self.poll.form.title.clone(),
                    choices: choices_from(&self.poll.form.options),
                    // minutes -> seconds for API
                    duration: self.poll.form.duration * 60,
                    channel_points_voting_enabled: self.poll.form.uses_channel_points,
                    channel_points_per_vote: self.poll.form.channel_point_cost,
                };
                Effect::CreatePoll { access_token: token, request }
            },
            PollMessage::PollCreated(r) => self.set_poll_run(r),
            PollMessage::ChannelPointsToggled(t) => {
                self.poll.form.uses_channel_points = t;
                Effect::Nothing
            },
            PollMessage::PointCostChange(c) => {
                self.poll.form.channel_point_cost = c;
                Effect::Nothing
            },
            PollMessage::EndPoll => {
                let (token, broadcaster_id) = match self.require_token_and_broadcaster_id() {
                    Ok(v) => v,
                    Err(e) => {
                        return Effect::Report(e);
                    },
                };
                let poll_id = match &self.poll.run {
                    PollRun::Live(d) => d.id.clone(),
                    PollRun::Idle => {
                        return Effect::Report(owned("No current poll when trying to end a poll"));
                    },
                };
                Effect::EndPoll { access_token: token, broadcaster_id, poll_id }
            },
            PollMessage::PollEnded(r) => self.set_poll_run(r),
            PollMessage::Config(c) => match c {
                ConfigMessage::Save => match validate_config_name(self.poll.form.name.as_str()) {
                    Ok(()) => Effect::SaveConfig { kind: ConfigKind::Polls, name: self.poll.form.name.clone() },
                    Err(e) => Effect::Dispatch(Message::Error(e)),
                },
                ConfigMessage::New => {
                    self.poll.form.name = String::new();
                    self.poll.configs.loaded = false;
                    self.poll.configs.selected = None;
                    Effect::Nothing
                },
                ConfigMessage::NameChanged(name) => {
                    self.poll.form.name = name;
                    Effect::Nothing
                },
                ConfigMessage::ConfigSelected(name) => Effect::LoadConfig { kind: ConfigKind::Polls, name },
            },
            PollMessage::ConfigSaved(name, r) => match r {
                Ok(files) => {
                    self.poll.configs.items = files;
                    self.poll.configs.loaded = true;
                    self.poll.configs.selected = Some(name);
                    Effect::Nothing
                },
                Err(e) => Effect::Dispatch(Message::Error(e)),
            },
            PollMessage::ConfigLoaded(name, form) => {
                self.poll.form = form;
                self.poll.configs.selected = Some(name);
                self.poll.configs.loaded = true;
                Effect::Nothing
            },
            PollMessage::LoadSampleData(data) => {
                self.poll.run = PollRun::Live(data);
                Effect::Nothing
            },
            PollMessage::TabSelected(idx) => {
                self.poll.active_tab = idx;
                Effect::Nothing
            },
            PollMessage::BaseFormChange(b) => {
                proof {
                    lemma_poll_option_limits();
                }
                handle_base_changes(&mut self.poll.form, b);
                Effect::Nothing
            },
        }
    }

    /// Everything but the prediction tab and the refresh mode is as in `other`.
    pub open spec fn same_but_prediction(&self, other: &App) -> bool {
        &&& self.broadcaster_id == other.broadcaster_id
        &&& self.access_token == other.access_token
        &&& self.refresh_token == other.refresh_token
        &&& self.auth_status == other.auth_status
        &&& self.device_code_info == other.device_code_info
        &&& self.auth_in_progress == other.auth_in_progress
        &&& self.refresh_attempted == other.refresh_attempted
        &&& self.confirm == other.confirm
        &&& self.active_tab == other.active_tab
        &&& self.err == other.err
        &&& self.poll == other.poll
        &&& self.settings == other.settings
        &&& self.sample == other.sample
    }

    /// Only the prediction form changed.
    pub open spec fn only_prediction_form_changed(&self, other: &App) -> bool {
        &&& self.prediction.run == other.prediction.run
        &&& self.prediction.configs == other.prediction.configs
        &&& self.prediction.active_tab == other.prediction.active_tab
        &&& self.polling == other.polling
        &&& self.same_but_prediction(other)
    }

    /// Only the prediction form's options changed.
    pub open spec fn only_prediction_options_changed(&self, other: &App) -> bool {
        &&& self.prediction.form.title == other.prediction.form.title
        &&& self.prediction.form.duration == other.prediction.form.duration
        &&& self.prediction.form.name == other.prediction.form.name
        &&& self.only_prediction_form_changed(other)
    }

    /// A prediction message is handled without panicking: removing an option names an
    /// existing one, and the window in seconds fits a `usize` when submitting.
    pub open spec fn prediction_message_ok(&self, m: PredictionMessage) -> bool {
        match m {
            PredictionMessage::RemoveOption(idx) => self.prediction.form.options@.len() > 2 ==> idx
                < self.prediction.form.options@.len(),
            PredictionMessage::Submit => self.prediction.form.duration * 60 <= usize::MAX,
            _ => true,
        }
    }

    /// What a lock or cancel request addresses: the live prediction, without a winner.
    pub fn create_end_prediction_request(&self, broadcaster_id: String) -> (r: Result<
        EndPredictionRequest,
        String,
    >)
        ensures
            match self.prediction.run {
                PredictionRun::Live(d) => r matches Ok(req) && req.broadcaster_id == broadcaster_id
                    && req.prediction_id == d.id && req.outcome_id@ == Seq::<char>::empty(),
                PredictionRun::Idle => r matches Err(e) && e@ == "Prediction run should be live"@,
            },
    {
        match &self.prediction.run {
            PredictionRun::Live(d) => {
                let prediction_id = d.id.clone();
                Ok(EndPredictionRequest { outcome_id: String::new(), broadcaster_id, prediction_id })
            },
            PredictionRun::Idle => Err(owned("Prediction run should be live")),
        }
    }

    fn set_prediction_phase(&mut self, result: Result<CreatePredictionResponseData, String>) -> (e:
        Effect)
        ensures
            match result {
                Ok(d) => {
                    &&& final(self).prediction.run == PredictionRun::Live(d)
                    &&& final(self).polling == old(self).polling
                    &&& final(self).prediction.form == old(self).prediction.form
                    &&& final(self).prediction.configs == old(self).prediction.configs
                    &&& final(self).prediction.active_tab == old(self).prediction.active_tab
                    &&& final(self).same_but_prediction(&*old(self))
                    &&& e == Effect::Nothing
                },
                Err(err) => *final(self) == *old(self) && e == Effect::Dispatch(Message::Error(err)),
            },
    {
        match result {
            Ok(r) => {
                self.prediction.run = PredictionRun::Live(r);
                Effect::Nothing
            },
            Err(e) => Effect::Dispatch(Message::Error(e)),
        }
    }

    fn change_prediction(&mut self, status: PredictionStatus) -> (e: Effect)
        ensures
            *final(self) == *old(self),
            match old(self).access_token {
                None => e matches Effect::Report(m) && m@ == not_logged_in_message(),
                Some(t) => match old(self).broadcaster_id {
                    None => e matches Effect::Report(m) && m@ == no_broadcaster_message(),
                    Some(b) => match old(self).prediction.run {
                        PredictionRun::Idle => e matches Effect::Dispatch(Message::Error(m))
                            && m@ == "Prediction run should be live"@,
                        PredictionRun::Live(d) => e matches Effect::ChangePrediction {
                            access_token,
                            request,
                            status: s,
                        } && access_token == t && request.broadcaster_id == b && request.prediction_id
                            == d.id && request.outcome_id@ == Seq::<char>::empty() && s == status,
                    },
                },
            },
    {
        let (token, broadcaster_id) = match self.require_token_and_broadcaster_id() {
            Ok(v) => v,
            Err(e) => {
                return Effect::Report(e);
            },
        };
        match self.create_end_prediction_request(broadcaster_id) {
            Ok(request) => Effect::ChangePrediction { access_token: token, request, status },
            Err(e) => Effect::Dispatch(Message::Error(e)),
        }
    }

    /// How a prediction message changes the state and which effect it asks for.
    pub open spec fn prediction_step(pre: App, pred_message: PredictionMessage, post: App, e: Effect) -> bool {
    &&& match pred_message {
        PredictionMessage::TitleChanged(t) => {
            &&& post.prediction.form == PredictionState { title: t, ..pre.prediction.form }
            &&& post.only_prediction_form_changed(&pre)
            &&& e == Effect::Nothing
        },
        PredictionMessage::NameChanged(n) => {
            &&& post.prediction.form == PredictionState { name: n, ..pre.prediction.form }
            &&& post.only_prediction_form_changed(&pre)
            &&& e == Effect::Nothing
        },
        PredictionMessage::DurationChange(d) => {
            &&& post.prediction.form == PredictionState { duration: d, ..pre.prediction.form }
            &&& post.only_prediction_form_changed(&pre)
            &&& e == Effect::Nothing
        },
        PredictionMessage::SaveConfig => {
            &&& post == pre
            &&& if config_name_ok(pre.prediction.form.name@) {
                e == Effect::SaveConfig {
                    kind: ConfigKind::Predictions,
                    name: pre.prediction.form.name,
                }
            } else {
                e matches Effect::Dispatch(Message::Error(m)) && m@ == config_name_error(
                    pre.prediction.form.name@,
                )
            }
        },
        PredictionMessage::NewConfig => {
            &&& post.prediction.form.name@ == Seq::<char>::empty()
            &&& post.prediction.form.title == pre.prediction.form.title
            &&& post.prediction.form.options == pre.prediction.form.options
            &&& post.prediction.form.duration == pre.prediction.form.duration
            &&& !post.prediction.configs.loaded
            &&& post.prediction.configs.selected is None
            &&& post.prediction.configs.items == pre.prediction.configs.items
            &&& post.prediction.run == pre.prediction.run
            &&& post.prediction.active_tab == pre.prediction.active_tab
            &&& post.polling == pre.polling
            &&& post.same_but_prediction(&pre)
            &&& e == Effect::Nothing
        },
        PredictionMessage::ConfigSelected(n) => {
            &&& post == pre
            &&& e == Effect::LoadConfig { kind: ConfigKind::Predictions, name: n }
        },
        PredictionMessage::ConfigSaved(n, r) => match r {
            Ok(files) => {
                &&& post.prediction.configs.items == files
                &&& post.prediction.configs.selected == Some(n)
                &&& post.prediction.configs.loaded
                &&& post.prediction.form == pre.prediction.form
                &&& post.prediction.run == pre.prediction.run
                &&& post.prediction.active_tab == pre.prediction.active_tab
                &&& post.polling == pre.polling
                &&& post.same_but_prediction(&pre)
                &&& e == Effect::Nothing
            },
            Err(err) => post == pre && e == Effect::Dispatch(Message::Error(err)),
        },
        PredictionMessage::ConfigLoaded(n, form) => {
            &&& post.prediction.form == form
            &&& post.prediction.configs.selected == Some(n)
            &&& post.prediction.configs.loaded
            &&& post.prediction.configs.items == pre.prediction.configs.items
            &&& post.prediction.run == pre.prediction.run
            &&& post.prediction.active_tab == pre.prediction.active_tab
            &&& post.polling == pre.polling
            &&& post.same_but_prediction(&pre)
            &&& e == Effect::Nothing
        },
        PredictionMessage::SwitchOptions => {
            &&& post.only_prediction_options_changed(&pre)
            &&& pre.prediction.form.options@.len() == 2 ==> post.prediction.form.options@
                == seq![pre.prediction.form.options@[1], pre.prediction.form.options@[0]]
            &&& pre.prediction.form.options@.len() != 2
                ==> post.prediction.form.options@.to_multiset()
                == pre.prediction.form.options@.to_multiset()
            &&& e == Effect::Nothing
        },
        PredictionMessage::OptionChanged(idx, val) => {
            &&& post.only_prediction_options_changed(&pre)
            &&& post.prediction.form.options@ == if idx < pre.prediction.form.options@.len() {
                pre.prediction.form.options@.update(idx as int, val)
            } else {
                pre.prediction.form.options@
            }
            &&& e == Effect::Nothing
        },
        PredictionMessage::AddOption => {
            &&& post.only_prediction_options_changed(&pre)
            &&& post.prediction.form.options@.len() == pre.prediction.form.options@.len() + 1
            &&& post.prediction.form.options@.drop_last() == pre.prediction.form.options@
            &&& post.prediction.form.options@.last()@ == Seq::<char>::empty()
            &&& e == Effect::Nothing
        },
        PredictionMessage::RemoveOption(idx) => {
            &&& post.only_prediction_options_changed(&pre)
            &&& post.prediction.form.options@ == if pre.prediction.form.options@.len() > 2 {
                pre.prediction.form.options@.remove(idx as int)
            } else {
                pre.prediction.form.options@
            }
            &&& e == Effect::Nothing
        },
        PredictionMessage::Submit => {
            &&& post == pre
            &&& match pre.access_token {
                None => e matches Effect::Report(m) && m@ == not_logged_in_message(),
                Some(t) => match pre.broadcaster_id {
                    None => e matches Effect::Report(m) && m@ == no_broadcaster_message(),
                    Some(b) => e matches Effect::CreatePrediction { access_token, request }
                        && access_token == t && prediction_request_from(
                        request,
                        pre.prediction.form,
                        b,
                    ),
                },
            }
        },
        PredictionMessage::PredictionCreated(r) | PredictionMessage::PredictionEnded(r)
        | PredictionMessage::PredictionLocked(r) | PredictionMessage::PredictionCanceled(r) => match r {
            Ok(d) => {
                &&& post.prediction.run == PredictionRun::Live(d)
                &&& post.polling == pre.polling
                &&& post.prediction.form == pre.prediction.form
                &&& post.prediction.configs == pre.prediction.configs
                &&& post.prediction.active_tab == pre.prediction.active_tab
                &&& post.same_but_prediction(&pre)
                &&& e == Effect::Nothing
            },
            Err(err) => post == pre && e == Effect::Dispatch(Message::Error(err)),
        },
        PredictionMessage::WinnerChosen(id) => {
            &&& post == pre
            &&& match pre.access_token {
                None => e matches Effect::Report(m) && m@ == not_logged_in_message(),
                Some(t) => match pre.broadcaster_id {
                    None => e matches Effect::Report(m) && m@ == no_broadcaster_message(),
                    Some(b) => match pre.prediction.run {
                        PredictionRun::Idle => e matches Effect::Report(m)
                            && m@ == "No active prediction when trying to choose winner."@,
                        PredictionRun::Live(d) => e matches Effect::ChangePrediction {
                            access_token,
                            request,
                            status,
                        } && access_token == t && request.broadcaster_id == b
                            && request.prediction_id == d.id && request.outcome_id == id
                            && status == PredictionStatus::Resolved,
                    },
                },
            }
        },
        PredictionMessage::LockPrediction | PredictionMessage::CancelPrediction => {
            &&& post == pre
            &&& match pre.access_token {
                None => e matches Effect::Report(m) && m@ == not_logged_in_message(),
                Some(t) => match pre.broadcaster_id {
                    None => e matches Effect::Report(m) && m@ == no_broadcaster_message(),
                    Some(b) => match pre.prediction.run {
                        PredictionRun::Idle => e matches Effect::Dispatch(Message::Error(m))
                            && m@ == "Prediction run should be live"@,
                        PredictionRun::Live(d) => e matches Effect::ChangePrediction {
                            access_token,
                            request,
                            status,
                        } && access_token == t && request.broadcaster_id == b
                            && request.prediction_id == d.id && request.outcome_id@
                            == Seq::<char>::empty() && status == if pred_message
                            is LockPrediction {
                            PredictionStatus::Locked
                        } else {
                            PredictionStatus::Canceled
                        },
                    },
                },
            }
        },
        PredictionMessage::ResetPrediction => {
            &&& post.prediction.run == PredictionRun::Idle
            &&& post.prediction.form == pre.prediction.form
            &&& post.prediction.configs == pre.prediction.configs
            &&& post.prediction.active_tab == pre.prediction.active_tab
            &&& post.polling == pre.polling
            &&& post.same_but_prediction(&pre)
            &&& e == Effect::Nothing
        },
        PredictionMessage::LoadSampleData(d) => {
            &&& post.prediction.run == PredictionRun::Live(d)
            &&& post.prediction.form == pre.prediction.form
            &&& post.prediction.configs == pre.prediction.configs
            &&& post.prediction.active_tab == pre.prediction.active_tab
            &&& post.polling == pre.polling
            &&& post.same_but_prediction(&pre)
            &&& e == Effect::Nothing
        },
        PredictionMessage::TabSelected(idx) => {
            &&& post.prediction.active_tab == idx
            &&& post.prediction.form == pre.prediction.form
            &&& post.prediction.run == pre.prediction.run
            &&& post.prediction.configs == pre.prediction.configs
            &&& post.polling == pre.polling
            &&& post.same_but_prediction(&pre)
            &&& e == Effect::Nothing
        },
    }
    }

    /// Handles a message of the prediction tab.
    #[verifier::rlimit(80)]
    #[verifier::spinoff_prover]
    pub fn handle_pred(&mut self, pred_message: PredictionMessage) -> (e: Effect)
        requires
            old(self).prediction_message_ok(pred_message),
        ensures
            Self::prediction_step(*old(self), pred_message, *final(self), e),

    {
        match pred_message {
            PredictionMessage::TitleChanged(t) => {
                self.prediction.form.title = t;
                Effect::Nothing
            },
            PredictionMessage::SaveConfig => match validate_config_name(self.prediction.form.name.as_str()) {
                Ok(()) => Effect::SaveConfig {
                    kind: ConfigKind::Predictions,
                    name: self.prediction.form.name.clone(),
                },
                Err(e) => Effect::Dispatch(Message::Error(e)),
            },
            PredictionMessage::NewConfig => {
                self.prediction.form.name = String::new();
                self.prediction.configs.loaded = false;
                self.prediction.configs.selected = None;
                Effect::Nothing
            },
            PredictionMessage::NameChanged(name) => {
                self.prediction.form.name = name;
                Effect::Nothing
            },
            PredictionMessage::ConfigSaved(name, r) => match r {
                Ok(files) => {
                    self.prediction.configs.items = files;
                    self.prediction.configs.selected = Some(name);
                    self.prediction.configs.loaded = true;
                    Effect::Nothing
                },
                Err(e) => Effect::Dispatch(Message::Error(e)),
            },
            PredictionMessage::SwitchOptions => {
                switch_options(&mut self.prediction.form.options);
                Effect::Nothing
            },
            PredictionMessage::OptionChanged(idx, val) => {
                if idx < self.prediction.form.options.len() {
                    self.prediction.form.options.set(idx, val);
                }
                Effect::Nothing
            },
            PredictionMessage::AddOption => {
                self.prediction.form.options.push(String::new());
                assert(self.prediction.form.options@.drop_last() =~= old(self).prediction.form.options@);
                Effect::Nothing
            },
            PredictionMessage::RemoveOption(idx) => {
                if self.prediction.form.options.len() > 2 {
                    self.prediction.form.options.remove(idx);
                }
                Effect::Nothing
            },
            PredictionMessage::Submit => {
                let (token, broadcaster_id) = match self.require_token_and_broadcaster_id() {
                    Ok(v) => v,
                    Err(e) => {
                        return Effect::Report(e);
                    },
                };
                let request = CreatePredictionRequest {
                    broadcaster_id,
                    title: self.prediction.form.title.clone(),
                    outcomes: choices_from(&self.prediction.form.options),
                    prediction_window: self.prediction.form.duration * 60,
                };
                Effect::CreatePrediction { access_token: token, request }
            },
            PredictionMessage::PredictionCreated(r) => self.set_prediction_phase(r),
            PredictionMessage::DurationChange(d) => {
                self.prediction.form.duration = d;
                Effect::Nothing
            },
            PredictionMessage::WinnerChosen(id) => {
                let (token, broadcaster_id) = match self.require_token_and_broadcaster_id() {
                    Ok(v) => v,
                    Err(e) => {
                        return Effect::Report(e);
                    },
                };
                let prediction_id = match &self.prediction.run {
                    PredictionRun::Live(d) => d.id.clone(),
                    PredictionRun::Idle => {
                        return Effect::Report(
                            owned("No active prediction when trying to choose winner."),
                        );
                    },
                };
                let request = EndPredictionRequest { outcome_id: id, broadcaster_id, prediction_id };
                Effect::ChangePrediction {
                    access_token: token,
                    request,
                    status: PredictionStatus::Resolved,
                }
            },
            PredictionMessage::PredictionEnded(r) => self.set_prediction_phase(r),
            PredictionMessage::ConfigSelected(c) => Effect::LoadConfig {
                kind: ConfigKind::Predictions,
                name: c,
            },
            PredictionMessage::ConfigLoaded(name, form) => {
                self.prediction.form = form;
                self.prediction.configs.loaded = true;
                self.prediction.configs.selected = Some(name);
                Effect::Nothing
            },
            PredictionMessage::LockPrediction => self.change_prediction(PredictionStatus::Locked),
            PredictionMessage::PredictionLocked(r) => self.set_prediction_phase(r),
            PredictionMessage::CancelPrediction => self.change_prediction(PredictionStatus::Canceled),
            PredictionMessage::PredictionCanceled(r) => self.set_prediction_phase(r),
            PredictionMessage::ResetPrediction => {
                self.prediction.run = PredictionRun::Idle;
                Effect::Nothing
            },
            PredictionMessage::LoadSampleData(data) => {
                self.prediction.run = PredictionRun::Live(data);
                Effect::Nothing
            },
            PredictionMessage::TabSelected(idx) => {
                self.prediction.active_tab = idx;
                Effect::Nothing
            },
        }
    }

    /// Everything but the login state is as in `other`.
    pub open spec fn same_but_auth(&self, other: &App) -> bool {
        &&& self.polling == other.polling
        &&& self.active_tab == other.active_tab
        &&& self.err == other.err
        &&& self.poll == other.poll
        &&& self.prediction == other.prediction
        &&& self.settings == other.settings
        &&& self.sample == other.sample
    }

    /// How a step of the login flow changes the state and which effect it asks for.
    pub open spec fn auth_step(pre: App, auth_message: AuthMessage, post: App, e: Effect) -> bool {
    &&& post.same_but_auth(&pre)
    &&& match auth_message {
        AuthMessage::StartAuth => {
            &&& post.auth_status@ == "Requesting device code..."@
            &&& post.auth_in_progress
            &&& post.device_code_info is None
            &&& !post.refresh_attempted
            &&& post.access_token == pre.access_token
            &&& post.refresh_token == pre.refresh_token
            &&& post.broadcaster_id == pre.broadcaster_id
            &&& post.confirm == pre.confirm
            &&& e == Effect::RequestDeviceCode
        },
        AuthMessage::DeviceCodeReceived(Ok(info)) => {
            &&& post.auth_status@ == "Go to "@ + info.verification_uri@ + " and enter code: "@
                + info.user_code@
            &&& post.device_code_info == Some(info)
            &&& post.auth_in_progress == pre.auth_in_progress
            &&& post.refresh_attempted == pre.refresh_attempted
            &&& post.access_token == pre.access_token
            &&& post.refresh_token == pre.refresh_token
            &&& post.broadcaster_id == pre.broadcaster_id
            &&& post.confirm == pre.confirm
            &&& e == Effect::Dispatch(
                Message::Auth(
                    AuthMessage::PollForTokens {
                        device_code: info.device_code,
                        interval: info.interval,
                        expires_in: info.expires_in,
                    },
                ),
            )
        },
        AuthMessage::DeviceCodeReceived(Err(err)) => {
            &&& post.auth_status@ == "Error: "@ + err@
            &&& !post.auth_in_progress
            &&& post.device_code_info == pre.device_code_info
            &&& post.refresh_attempted == pre.refresh_attempted
            &&& post.access_token == pre.access_token
            &&& post.refresh_token == pre.refresh_token
            &&& post.broadcaster_id == pre.broadcaster_id
            &&& post.confirm == pre.confirm
            &&& e == Effect::Nothing
        },
        AuthMessage::PollForTokens { device_code, interval, expires_in } => {
            &&& post == pre
            &&& e == Effect::PollForTokens { device_code, interval, expires_in }
        },
        AuthMessage::AuthCompleted(Ok((a, r))) => {
            &&& !post.auth_in_progress
            &&& post.device_code_info is None
            &&& post.access_token == Some(a)
            &&& post.refresh_token == Some(r)
            &&& post.auth_status@ == "Authenticated"@
            &&& post.refresh_attempted == pre.refresh_attempted
            &&& post.broadcaster_id == pre.broadcaster_id
            &&& post.confirm == pre.confirm
            &&& e == Effect::StoreTokens { access_token: a, refresh_token: r }
        },
        AuthMessage::AuthCompleted(Err(err)) => {
            &&& !post.auth_in_progress
            &&& post.device_code_info is None
            &&& post.auth_status@ == "Error: "@ + err@
            &&& post.access_token == pre.access_token
            &&& post.refresh_token == pre.refresh_token
            &&& post.refresh_attempted == pre.refresh_attempted
            &&& post.broadcaster_id == pre.broadcaster_id
            &&& post.confirm == pre.confirm
            &&& e == Effect::Nothing
        },
        AuthMessage::TokensStored(ok) => {
            &&& post == pre
            &&& e == Effect::Dispatch(
                Message::Auth(
                    if ok {
                        AuthMessage::ValidateToken
                    } else {
                        AuthMessage::ConfirmFallback
                    },
                ),
            )
        },
        AuthMessage::ValidateToken => {
            &&& post == pre
            &&& match pre.access_token {
                Some(t) => e == Effect::ValidateToken { access_token: t },
                None => e == Effect::Nothing,
            }
        },
        AuthMessage::TokenValidated(Ok(Some(user_id))) => {
            &&& post.auth_status@ == "Authenticated"@
            &&& post.broadcaster_id == Some(user_id)
            &&& !post.refresh_attempted
            &&& post.auth_in_progress == pre.auth_in_progress
            &&& post.device_code_info == pre.device_code_info
            &&& post.access_token == pre.access_token
            &&& post.refresh_token == pre.refresh_token
            &&& post.confirm == pre.confirm
            &&& e == Effect::Nothing
        },
        // Twitch confirmed the token is invalid: refresh once, then log in anew.
        AuthMessage::TokenValidated(Ok(None)) => {
            &&& post.broadcaster_id == pre.broadcaster_id
            &&& post.refresh_attempted == pre.refresh_attempted
            &&& post.auth_in_progress == pre.auth_in_progress
            &&& post.device_code_info == pre.device_code_info
            &&& post.access_token == pre.access_token
            &&& post.refresh_token == pre.refresh_token
            &&& post.confirm == pre.confirm
            &&& if pre.refresh_token is Some && !pre.refresh_attempted {
                &&& post.auth_status@ == "Token expired, refreshing..."@
                &&& e == Effect::Dispatch(Message::Auth(AuthMessage::RefreshToken))
            } else {
                &&& post.auth_status == pre.auth_status
                &&& e == Effect::Dispatch(Message::Auth(AuthMessage::StartAuth))
            }
        },
        // Twitch could not be reached: the token may still be valid, try again later.
        AuthMessage::TokenValidated(Err(err)) => {
            &&& post.auth_status@ == "Could not reach Twitch, retrying..."@
            &&& post.broadcaster_id == pre.broadcaster_id
            &&& post.refresh_attempted == pre.refresh_attempted
            &&& post.auth_in_progress == pre.auth_in_progress
            &&& post.device_code_info == pre.device_code_info
            &&& post.access_token == pre.access_token
            &&& post.refresh_token == pre.refresh_token
            &&& post.confirm == pre.confirm
            &&& e == Effect::RetryValidation { reason: err }
        },
        AuthMessage::RefreshToken => {
            &&& post.auth_status == pre.auth_status
            &&& post.broadcaster_id == pre.broadcaster_id
            &&& post.auth_in_progress == pre.auth_in_progress
            &&& post.device_code_info == pre.device_code_info
            &&& post.access_token == pre.access_token
            &&& post.refresh_token == pre.refresh_token
            &&& post.confirm == pre.confirm
            &&& match pre.refresh_token {
                Some(t) => post.refresh_attempted && e == Effect::RefreshToken {
                    refresh_token: t,
                },
                None => post.refresh_attempted == pre.refresh_attempted && e
                    == Effect::Nothing,
            }
        },
        AuthMessage::ConfirmFallback => {
            &&& post.confirm matches Some(c) && c.message@ == fallback_question() && c.on_yes == Message::Auth(
                AuthMessage::FallbackConfirmed(true),
            ) && c.on_no == Some(Message::Auth(AuthMessage::FallbackConfirmed(false)))
            &&& post.auth_status == pre.auth_status
            &&& post.broadcaster_id == pre.broadcaster_id
            &&& post.refresh_attempted == pre.refresh_attempted
            &&& post.auth_in_progress == pre.auth_in_progress
            &&& post.device_code_info == pre.device_code_info
            &&& post.access_token == pre.access_token
            &&& post.refresh_token == pre.refresh_token
            &&& e == Effect::Nothing
        },
        // the tokens go to the file only when the user agreed and both are known;
        // validation follows either way so that the app stays usable; the question
        // itself is left as it is
        AuthMessage::FallbackConfirmed(confirmed) => {
            &&& post.confirm == pre.confirm
            &&& post.auth_status == pre.auth_status
            &&& post.broadcaster_id == pre.broadcaster_id
            &&& post.refresh_attempted == pre.refresh_attempted
            &&& post.auth_in_progress == pre.auth_in_progress
            &&& post.device_code_info == pre.device_code_info
            &&& post.access_token == pre.access_token
            &&& post.refresh_token == pre.refresh_token
            &&& if confirmed && pre.access_token is Some && pre.refresh_token is Some {
                e == Effect::StoreTokensInFile {
                    access_token: pre.access_token->0,
                    refresh_token: pre.refresh_token->0,
                }
            } else {
                e == Effect::Dispatch(Message::Auth(AuthMessage::ValidateToken))
            }
        },
    }
    }

    /// Handles a step of the login flow.
    #[verifier::rlimit(60)]
    #[verifier::spinoff_prover]
    pub fn handle_auth(&mut self, auth_message: AuthMessage) -> (e: Effect)
        ensures
            Self::auth_step(*old(self), auth_message, *final(self), e),

    {
        match auth_message {
            AuthMessage::StartAuth => {
                self.auth_status = owned("Requesting device code...");
                self.auth_in_progress = true;
                self.device_code_info = None;
                self.refresh_attempted = false;
                Effect::RequestDeviceCode
            },
            AuthMessage::DeviceCodeReceived(result) => match result {
                Ok(info) => {
                    let mut status = owned("Go to ");
                    push_str(&mut status, info.verification_uri.as_str());
                    push_str(&mut status, " and enter code: ");
                    push_str(&mut status, info.user_code.as_str());
                    self.auth_status = status;
                    let device_code = info.device_code.clone();
                    let interval = info.interval;
                    let expires_in = info.expires_in;
                    self.device_code_info = Some(info);
                    // Start polling for tokens
                    Effect::Dispatch(
                        Message::Auth(AuthMessage::PollForTokens { device_code, interval, expires_in }),
                    )
                },
                Err(e) => {
                    let mut status = owned("Error: ");
                    push_str(&mut status, e.as_str());
                    self.auth_status = status;
                    self.auth_in_progress = false;
                    Effect::Nothing
                },
            },
            AuthMessage::PollForTokens { device_code, interval, expires_in } => {
                Effect::PollForTokens { device_code, interval, expires_in }
            },
            AuthMessage::AuthCompleted(res) => {
                self.auth_in_progress = false;
                self.device_code_info = None;
                match res {
                    Ok((access_token, refresh_token)) => {
                        let a = access_token.clone();
                        let r = refresh_token.clone();
                        self.access_token = Some(access_token);
                        self.refresh_token = Some(refresh_token);
                        self.auth_status = owned("Authenticated");
                        Effect::StoreTokens { access_token: a, refresh_token: r }
                    },
                    Err(e) => {
                        let mut status = owned("Error: ");
                        push_str(&mut status, e.as_str());
                        self.auth_status = status;
                        Effect::Nothing
                    },
                }
            },
            AuthMessage::TokensStored(ok) => {
                if ok {
                    Effect::Dispatch(Message::Auth(AuthMessage::ValidateToken))
                } else {
                    Effect::Dispatch(Message::Auth(AuthMessage::ConfirmFallback))
                }
            },
            AuthMessage::ValidateToken => match &self.access_token {
                Some(token) => Effect::ValidateToken { access_token: token.clone() },
                None => Effect::Nothing,
            },
            AuthMessage::TokenValidated(result) => match result {
                Ok(Some(user_id)) => {
                    self.auth_status = owned("Authenticated");
                    self.broadcaster_id = Some(user_id);
                    self.refresh_attempted = false;
                    Effect::Nothing
                },
                Ok(None) => {
                    if self.refresh_token.is_some() && !self.refresh_attempted {
                        self.auth_status = owned("Token expired, refreshing...");
                        Effect::Dispatch(Message::Auth(AuthMessage::RefreshToken))
                    } else {
                        // No refresh token, or a freshly refreshed token failed
                        // validation too: don't loop, start a new device flow.
                        Effect::Dispatch(Message::Auth(AuthMessage::StartAuth))
                    }
                },
                Err(e) => {
                    self.auth_status = owned("Could not reach Twitch, retrying...");
                    Effect::RetryValidation { reason: e }
                },
            },
            AuthMessage::RefreshToken => match &self.refresh_token {
                Some(refresh) => {
                    let t = refresh.clone();
                    self.refresh_attempted = true;
                    Effect::RefreshToken { refresh_token: t }
                },
                None => Effect::Nothing,
            },
            AuthMessage::ConfirmFallback => {
                self.confirm = Some(
                    Confirm {
                        message: owned(
                            "Could not save tokens to the Operating System's keystore.\nDo you want the tokens saved to a file? This is not recommended since it might leak the tokens to other processes.\nIf \"No\", you'll have to re-authenticate every time you restart the app.",
                        ),
                        on_yes: Message::Auth(AuthMessage::FallbackConfirmed(true)),
                        on_no: Some(Message::Auth(AuthMessage::FallbackConfirmed(false))),
                    },
                );
                Effect::Nothing
            },
            AuthMessage::FallbackConfirmed(confirmed) => {
                if confirmed {
                    match (&self.access_token, &self.refresh_token) {
                        (Some(access), Some(refresh)) => {
                            return Effect::StoreTokensInFile {
                                access_token: access.clone(),
                                refresh_token: refresh.clone(),
                            };
                        },
                        _ => {},
                    }
                }
                // if saving failed, still validate to have usable app
                Effect::Dispatch(Message::Auth(AuthMessage::ValidateToken))
            },
        }
    }

    /// How a settings change changes the state: the setting is stored, the settings
    /// are saved, and a new number format takes effect.
    pub open spec fn settings_step(pre: App, m: SettingsMessage, post: App, e: Effect) -> bool {
        match m {
            SettingsMessage::DefaultTab(t) => post == App {
                settings: Settings { default_tab: Some(t), ..pre.settings },
                ..pre
            } && e == Effect::SaveSettings { separator: None },
            SettingsMessage::LightTheme(t) => post == App {
                settings: Settings { light_theme: Some(t), ..pre.settings },
                ..pre
            } && e == Effect::SaveSettings { separator: None },
            SettingsMessage::DarkTheme(t) => post == App {
                settings: Settings { dark_theme: Some(t), ..pre.settings },
                ..pre
            } && e == Effect::SaveSettings { separator: None },
            SettingsMessage::NumberFormat(sep) => post == App {
                settings: Settings { separator: Some(sep), ..pre.settings },
                ..pre
            } && e == Effect::SaveSettings { separator: Some(sep) },
        }
    }

    /// Handles a change on the settings tab.
    pub fn handle_settings(&mut self, message: SettingsMessage) -> (e: Effect)
        ensures
            Self::settings_step(*old(self), message, *final(self), e),
    {
        match message {
            SettingsMessage::DefaultTab(tab) => {
                self.settings.default_tab = Some(tab);
                Effect::SaveSettings { separator: None }
            },
            SettingsMessage::LightTheme(theme) => {
                self.settings.light_theme = Some(theme);
                Effect::SaveSettings { separator: None }
            },
            SettingsMessage::DarkTheme(theme) => {
                self.settings.dark_theme = Some(theme);
                Effect::SaveSettings { separator: None }
            },
            SettingsMessage::NumberFormat(separator) => {
                self.settings.separator = Some(separator);
                Effect::SaveSettings { separator: Some(separator) }
            },
        }
    }

    /// A message is handled without panicking (see the tabs' own conditions).
    pub open spec fn message_ok(&self, m: Message) -> bool {
        match m {
            Message::Poll(pm) => self.poll_message_ok(pm),
            Message::Prediction(pm) => self.prediction_message_ok(pm),
            _ => true,
        }
    }

    /// The refresh request a tick asks for: only while that kind is being refreshed,
    /// someone is logged in and something is running.
    pub open spec fn tick_effect(pre: App, prediction: bool) -> Effect {
        match (pre.access_token, pre.broadcaster_id) {
            (Some(t), Some(b)) => if prediction {
                match pre.prediction.run {
                    PredictionRun::Live(d) => if pre.polling == AppPolling::Prediction {
                        Effect::CheckPrediction { access_token: t, broadcaster_id: b, prediction_id: d.id }
                    } else {
                        Effect::Nothing
                    },
                    PredictionRun::Idle => Effect::Nothing,
                }
            } else {
                match pre.poll.run {
                    PollRun::Live(d) => if pre.polling == AppPolling::Poll {
                        Effect::CheckPoll { access_token: t, broadcaster_id: b, poll_id: d.id }
                    } else {
                        Effect::Nothing
                    },
                    PollRun::Idle => Effect::Nothing,
                }
            },
            _ => Effect::Nothing,
        }
    }

    /// How any message changes the state and which effect it asks for.
    pub open spec fn update_step(pre: App, m: Message, post: App, e: Effect) -> bool {
        match m {
            Message::Auth(am) => Self::auth_step(pre, am, post, e),
            Message::TabSelected(idx) => post == App { active_tab: TabId::spec_from_idx(idx), ..pre }
                && e == Effect::Nothing,
            Message::Poll(pm) => Self::poll_step(pre, pm, post, e),
            Message::Prediction(pm) => Self::prediction_step(pre, pm, post, e),
            Message::Settings(sm) => Self::settings_step(pre, sm, post, e),
            Message::Error(err) => post == App { err, ..pre } && e == Effect::Nothing,
            Message::ClearError => post.err@ == Seq::<char>::empty() && post == App { err: post.err, ..pre }
                && e == Effect::Nothing,
            Message::PredictionTick => post == pre && e == Self::tick_effect(pre, true),
            Message::PredictionPolled(Ok(r)) => post == App {
                prediction: PredictionTab { run: PredictionRun::Live(r), ..pre.prediction },
                polling: if r.status == PredictionStatus::Canceled || r.status
                    == PredictionStatus::Resolved {
                    AppPolling::Not
                } else {
                    pre.polling
                },
                ..pre
            } && e == Effect::Nothing,
            Message::PredictionPolled(Err(err)) => post == App { polling: AppPolling::Not, ..pre } && e
                == Effect::Log(err),
            Message::PollTick => post == pre && e == Self::tick_effect(pre, false),
            Message::PollPolled(Ok(r)) => post == App {
                poll: PollTab { run: PollRun::Live(r), ..pre.poll },
                polling: if r.status == PollPhase::Archived || r.status == PollPhase::Completed {
                    AppPolling::Not
                } else {
                    pre.polling
                },
                ..pre
            } && e == Effect::Nothing,
            Message::PollPolled(Err(err)) => post == App { polling: AppPolling::Not, ..pre } && e
                == Effect::Log(err),
        }
    }

    fn tick(&self, prediction: bool) -> (e: Effect)
        ensures
            e == Self::tick_effect(*self, prediction),
    {
        let wanted = if prediction {
            AppPolling::Prediction
        } else {
            AppPolling::Poll
        };
        if self.polling != wanted {
            return Effect::Nothing;
        }
        let (token, broadcaster_id) = match (&self.access_token, &self.broadcaster_id) {
            (Some(t), Some(b)) => (t.clone(), b.clone()),
            _ => {
                return Effect::Nothing;
            },
        };
        if prediction {
            match &self.prediction.run {
                PredictionRun::Live(d) => Effect::CheckPrediction {
                    access_token: token,
                    broadcaster_id,
                    prediction_id: d.id.clone(),
                },
                PredictionRun::Idle => Effect::Nothing,
            }
        } else {
            match &self.poll.run {
                PollRun::Live(d) => Effect::CheckPoll {
                    access_token: token,
                    broadcaster_id,
                    poll_id: d.id.clone(),
                },
                PollRun::Idle => Effect::Nothing,
            }
        }
    }

    /// Handles any message of the application.
    pub fn update(&mut self, message: Message) -> (e: Effect)
        requires
            old(self).message_ok(message),
        ensures
            Self::update_step(*old(self), message, *final(self), e),
    {
        match message {
            Message::Auth(auth_message) => self.handle_auth(auth_message),
            Message::TabSelected(idx) => {
                self.active_tab = TabId::from_idx(idx);
                Effect::Nothing
            },
            Message::Prediction(pred_message) => self.handle_pred(pred_message),
            Message::Poll(poll_message) => self.handle_poll(poll_message),
            Message::Settings(settings_message) => self.handle_settings(settings_message),
            Message::Error(err) => {
                self.err = err;
                Effect::Nothing
            },
            Message::ClearError => {
                self.err = String::new();
                Effect::Nothing
            },
            Message::PredictionTick => self.tick(true),
            Message::PredictionPolled(resp) => match resp {
                Ok(r) => {
                    if r.status == PredictionStatus::Canceled || r.status == PredictionStatus::Resolved {
                        self.polling = AppPolling::Not;
                    }
                    self.prediction.run = PredictionRun::Live(r);
                    Effect::Nothing
                },
                Err(err) => {
                    self.polling = AppPolling::Not;
                    Effect::Log(err)
                },
            },
            Message::PollTick => self.tick(false),
            Message::PollPolled(resp) => match resp {
                Ok(r) => {
                    if r.status == PollPhase::Archived || r.status == PollPhase::Completed {
                        self.polling = AppPolling::Not;
                    }
                    self.poll.run = PollRun::Live(r);
                    Effect::Nothing
                },
                Err(err) => {
                    self.polling = AppPolling::Not;
                    Effect::Log(err)
                },
            },
        }
    }

    /// The state at start-up. Saved tokens are validated first; without them the user
    /// has to log in. Both forms start with two empty options and ten minutes; polls
    /// cost 5000 channel points per extra vote.
    pub fn new(
        poll_configs: Vec<String>,
        prediction_configs: Vec<String>,
        tokens: Option<(String, String)>,
        settings: Settings,
        sample: bool,
    ) -> (r: (App, Effect))
        ensures
            r.0.poll.configs.items == poll_configs,
            r.0.prediction.configs.items == prediction_configs,
            !r.0.poll.configs.loaded && r.0.poll.configs.selected is None,
            !r.0.prediction.configs.loaded && r.0.prediction.configs.selected is None,
            r.0.poll.form.options@.len() == 2,
            r.0.poll.form.options@[0]@ == Seq::<char>::empty(),
            r.0.poll.form.options@[1]@ == Seq::<char>::empty(),
            r.0.poll.form.duration == 10,
            r.0.poll.form.channel_point_cost == 5000,
            !r.0.poll.form.uses_channel_points,
            r.0.prediction.form.options@.len() == 2,
            r.0.prediction.form.options@[0]@ == Seq::<char>::empty(),
            r.0.prediction.form.options@[1]@ == Seq::<char>::empty(),
            r.0.prediction.form.duration == 10,
            r.0.poll.form.title@ == Seq::<char>::empty(),
            r.0.poll.form.name@ == Seq::<char>::empty(),
            r.0.prediction.form.title@ == Seq::<char>::empty(),
            r.0.prediction.form.name@ == Seq::<char>::empty(),
            r.0.poll.active_tab == PollBarTabId::Total,
            r.0.prediction.active_tab == 0,
            r.0.confirm is None,
            r.0.device_code_info is None,
            !r.0.auth_in_progress,
            !r.0.refresh_attempted,
            r.0.poll.run is Idle,
            r.0.prediction.run is Idle,
            r.0.polling == AppPolling::Not,
            r.0.active_tab == TabId::Prediction,
            r.0.err@ == Seq::<char>::empty(),
            r.0.broadcaster_id is None,
            r.0.settings == settings,
            r.0.sample == sample,
            match tokens {
                Some((a, f)) => {
                    &&& r.0.access_token == Some(a)
                    &&& r.0.refresh_token == Some(f)
                    &&& r.0.auth_status@ == "Checking saved token..."@
                    &&& r.1 == Effect::Dispatch(Message::Auth(AuthMessage::ValidateToken))
                },
                None => {
                    &&& r.0.access_token is None
                    &&& r.0.refresh_token is None
                    &&& r.0.auth_status@ == "Not logged in"@
                    &&& r.1 == Effect::Nothing
                },
            },
    {
        let mut poll = PollTab::default();
        poll.form.options = vec![String::new(), String::new()];
        poll.form.duration = 10;
        poll.form.channel_point_cost = 5000;
        poll.configs.items = poll_configs;
        let mut prediction = PredictionTab::default();
        prediction.form.options = vec![String::new(), String::new()];
        prediction.form.duration = 10;
        prediction.configs.items = prediction_configs;
        let (access_token, refresh_token, auth_status, effect) = match tokens {
            Some((access, refresh)) => (
                Some(access),
                Some(refresh),
                owned("Checking saved token..."),
                Effect::Dispatch(Message::Auth(AuthMessage::ValidateToken)),
            ),
            None => (None, None, owned("Not logged in"), Effect::Nothing),
        };
        let app = App {
            broadcaster_id: None,
            access_token,
            refresh_token,
            auth_status,
            device_code_info: None,
            auth_in_progress: false,
            refresh_attempted: false,
            confirm: None,
            polling: AppPolling::Not,
            active_tab: TabId::Prediction,
            err: String::new(),
            poll,
            prediction,
            settings,
            sample,
        };
        (app, effect)
    }
}

/// A config is only ever written under a valid name: whatever message is handled, a
/// save it asks for names a single plain file (no path separator, not `.` or `..`,
/// not blank).
pub proof fn lemma_saves_use_valid_names(pre: App, m: Message, post: App, e: Effect)
    requires
        App::update_step(pre, m, post, e),
        e is SaveConfig,
    ensures
        config_name_ok(e->SaveConfig_name@),
{
}

/// Refreshing happens at most once: when the token that a refresh produced is also
/// invalid, a new device login starts instead of another refresh.
pub proof fn lemma_refresh_does_not_loop(
    pre: App,
    mid: App,
    post: App,
    e1: Effect,
    e2: Effect,
)
    requires
        pre.refresh_token is Some,
        App::auth_step(pre, AuthMessage::RefreshToken, mid, e1),
        App::auth_step(mid, AuthMessage::TokenValidated(Ok(None)), post, e2),
    ensures
        e1 == (Effect::RefreshToken { refresh_token: pre.refresh_token->0 }),
        e2 == Effect::Dispatch(Message::Auth(AuthMessage::StartAuth)),
{
}

/// Editing the poll form never leaves it with fewer than two options.
pub proof fn lemma_poll_keeps_two_options(pre: App, b: BaseFormMessage, post: App, e: Effect)
    requires
        pre.poll.form.options@.len() >= 2,
        pre.poll_message_ok(PollMessage::BaseFormChange(b)),
        App::poll_step(pre, PollMessage::BaseFormChange(b), post, e),
    ensures
        post.poll.form.options@.len() >= 2,
{
}

/// Editing the prediction options never leaves fewer than two of them.
pub proof fn lemma_prediction_keeps_two_options(pre: App, m: PredictionMessage, post: App, e: Effect)
    requires
        pre.prediction.form.options@.len() >= 2,
        m is OptionChanged || m is AddOption || m is RemoveOption || m is SwitchOptions,
        pre.prediction_message_ok(m),
        App::prediction_step(pre, m, post, e),
    ensures
        post.prediction.form.options@.len() >= 2,
{
    if m is SwitchOptions && pre.prediction.form.options@.len() != 2 {
        post.prediction.form.options@.to_multiset_ensures();
        pre.prediction.form.options@.to_multiset_ensures();
    }
}

/// Locking or cancelling a prediction never names a winner: the address it is sent to
/// ends with the status.
pub proof fn lemma_lock_and_cancel_name_no_winner(pre: App, m: PredictionMessage, post: App, e: Effect)
    requires
        m is LockPrediction || m is CancelPrediction,
        App::prediction_step(pre, m, post, e),
        e is ChangePrediction,
    ensures
        prediction_state_url_spec(e->ChangePrediction_request, e->ChangePrediction_status) == query_url(
            PREDICTION_URL@,
            e->ChangePrediction_request.broadcaster_id@,
            e->ChangePrediction_request.prediction_id@,
        ) + "&status="@ + e->ChangePrediction_status.api_name(),
        e->ChangePrediction_status == if m is LockPrediction {
            PredictionStatus::Locked
        } else {
            PredictionStatus::Canceled
        },
{
}

/// Submitting the poll form asks Twitch, with the logged-in token, for a poll of the
/// logged-in broadcaster with the form's title and options, open for the form's
/// minutes counted in seconds, with the form's channel-point settings; the state
/// stays as it is.
pub proof fn lemma_poll_submit_request(pre: App, post: App, e: Effect, t: String, b: String)
    requires
        pre.access_token == Some(t),
        pre.broadcaster_id == Some(b),
        App::update_step(pre, Message::Poll(PollMessage::Submit), post, e),
    ensures
        post == pre,
        e matches Effect::CreatePoll { access_token, request } && {
            &&& access_token == t
            &&& request.broadcaster_id == b
            &&& request.title == pre.poll.form.title
            &&& request.choices@.len() == pre.poll.form.options@.len()
            &&& forall|i: int|
                0 <= i < pre.poll.form.options@.len() ==> (#[trigger] request.choices@[i]).title
                    == pre.poll.form.options@[i]
            &&& request.duration == 60 * pre.poll.form.duration
            &&& request.channel_points_voting_enabled == pre.poll.form.uses_channel_points
            &&& request.channel_points_per_vote == pre.poll.form.channel_point_cost
        },
{
}

/// Submitting the prediction form asks Twitch, with the logged-in token, for a
/// prediction of the logged-in broadcaster with the form's title and options, taking
/// bets for the form's minutes counted in seconds; the state stays as it is.
pub proof fn lemma_prediction_submit_request(pre: App, post: App, e: Effect, t: String, b: String)
    requires
        pre.access_token == Some(t),
        pre.broadcaster_id == Some(b),
        App::update_step(pre, Message::Prediction(PredictionMessage::Submit), post, e),
    ensures
        post == pre,
        e matches Effect::CreatePrediction { access_token, request } && {
            &&& access_token == t
            &&& request.broadcaster_id == b
            &&& request.title == pre.prediction.form.title
            &&& request.outcomes@.len() == pre.prediction.form.options@.len()
            &&& forall|i: int|
                0 <= i < pre.prediction.form.options@.len() ==> (#[trigger] request.outcomes@[i]).title
                    == pre.prediction.form.options@[i]
            &&& request.prediction_window == 60 * pre.prediction.form.duration
        },
{
}

/// Ending a poll early addresses the live poll of the logged-in broadcaster, with the
/// logged-in token; the state stays as it is.
pub proof fn lemma_end_poll_addresses_the_live_poll(
    pre: App,
    post: App,
    e: Effect,
    t: String,
    b: String,
    d: PollStateData,
)
    requires
        pre.access_token == Some(t),
        pre.broadcaster_id == Some(b),
        pre.poll.run == PollRun::Live(d),
        App::update_step(pre, Message::Poll(PollMessage::EndPoll), post, e),
    ensures
        post == pre,
        e matches Effect::EndPoll { access_token, broadcaster_id, poll_id } && access_token == t
            && broadcaster_id == b && poll_id == d.id,
{
}

/// Choosing a winner, locking and cancelling address the live prediction of the
/// logged-in broadcaster: a chosen winner is named, a lock or a cancel names none,
/// and each asks for its own status.
pub proof fn lemma_prediction_changes_address_the_live_prediction(
    pre: App,
    m: PredictionMessage,
    post: App,
    e: Effect,
    t: String,
    b: String,
    d: CreatePredictionResponseData,
)
    requires
        m is WinnerChosen || m is LockPrediction || m is CancelPrediction,
        pre.access_token == Some(t),
        pre.broadcaster_id == Some(b),
        pre.prediction.run == PredictionRun::Live(d),
        App::update_step(pre, Message::Prediction(m), post, e),
    ensures
        post == pre,
        e matches Effect::ChangePrediction { access_token, request, status } && {
            &&& access_token == t
            &&& request.broadcaster_id == b
            &&& request.prediction_id == d.id
            &&& m matches PredictionMessage::WinnerChosen(w) ==> request.outcome_id == w
                && status == PredictionStatus::Resolved
            &&& m is LockPrediction ==> request.outcome_id@.len() == 0 && status
                == PredictionStatus::Locked
            &&& m is CancelPrediction ==> request.outcome_id@.len() == 0 && status
                == PredictionStatus::Canceled
        },
{
}

/// A completed device login leads to validating the new token: the tokens are stored,
/// a successful store asks for validation, validation sends the new access token, and
/// a positive answer makes the user the broadcaster.
pub proof fn lemma_login_reaches_validation(
    s0: App,
    s1: App,
    s2: App,
    s3: App,
    s4: App,
    e1: Effect,
    e2: Effect,
    e3: Effect,
    e4: Effect,
    a: String,
    r: String,
    user: String,
)
    requires
        App::update_step(s0, Message::Auth(AuthMessage::AuthCompleted(Ok((a, r)))), s1, e1),
        App::update_step(s1, Message::Auth(AuthMessage::TokensStored(true)), s2, e2),
        App::update_step(s2, Message::Auth(AuthMessage::ValidateToken), s3, e3),
        App::update_step(s3, Message::Auth(AuthMessage::TokenValidated(Ok(Some(user)))), s4, e4),
    ensures
        e1 == (Effect::StoreTokens { access_token: a, refresh_token: r }),
        e2 == Effect::Dispatch(Message::Auth(AuthMessage::ValidateToken)),
        e3 == (Effect::ValidateToken { access_token: a }),
        s4.access_token == Some(a),
        s4.broadcaster_id == Some(user),
{
}

/// When the tokens could not be stored, the user is asked about the file fallback
/// and nothing else changes.
pub proof fn lemma_failed_store_asks_about_the_file(pre: App, post: App, e: Effect)
    requires
        App::update_step(pre, Message::Auth(AuthMessage::TokensStored(false)), post, e),
    ensures
        post == pre,
        e == Effect::Dispatch(Message::Auth(AuthMessage::ConfirmFallback)),
{
}

/// Loading a saved config puts the loaded form in place of whatever form the tab
/// held, and marks the config as selected and loaded.
pub proof fn lemma_loaded_config_replaces_the_form(
    pre: App,
    post: App,
    e: Effect,
    name: String,
    poll_form: PollState,
    prediction_form: PredictionState,
    prediction: bool,
)
    requires
        if prediction {
            App::update_step(
                pre,
                Message::Prediction(PredictionMessage::ConfigLoaded(name, prediction_form)),
                post,
                e,
            )
        } else {
            App::update_step(pre, Message::Poll(PollMessage::ConfigLoaded(name, poll_form)), post, e)
        },
    ensures
        e == Effect::Nothing,
        prediction ==> post.prediction.form == prediction_form && post.prediction.configs.selected
            == Some(name) && post.prediction.configs.loaded && post.poll == pre.poll,
        !prediction ==> post.poll.form == poll_form && post.poll.configs.selected == Some(name)
            && post.poll.configs.loaded && post.prediction == pre.prediction,
{
}

/// Selecting a tab by its position selects that tab.
pub proof fn lemma_tab_index_round_trip(t: TabId)
    ensures
        TabId::spec_from_idx(t.spec_idx()) == t,
{
}

} // verus!
