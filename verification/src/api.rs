//! The handlers behind the calls of a front end, and the steps of the two
//! background tasks.
//!
//! A handler takes the aggregates it works on and the positional values of
//! the call. It returns the reply and, where something is left to do outside,
//! what that is. The caller holds the locks of the aggregates it passes, taken
//! in the order settings, process controller, runtime state, status register.
//! Where a lock cannot be had the caller replies with nothing and calls
//! nothing here.

use crate::control::{
    update_step, DownloadStatus, Fetched, ProcessAction, ProcessActionView, RuntimeState,
    UpdateEvent,
};
use crate::listing::{encode_subscriptions, json_list};
use crate::naming::{
    directory_of, file_path, is_new_file_in, new_subscription_file_name, subscription_dir,
    FETCH_TIMEOUT,
};
use crate::primitive::{
    bool_reply, empty_reply, first_bool, first_index, first_text, primitive_views, read_bool,
    read_index, read_text, text_reply, Primitive, PrimitiveView,
};
use crate::settings::{subscription_views, Settings, SettingsView, Subscription, SubscriptionView};
use vstd::prelude::*;

verus! {

/// What the process controller is asked to do when the settings `before` meet
/// a request for `requested`.
pub open spec fn toggle_action(before: SettingsView, requested: bool) -> ProcessActionView {
    if requested == before.enable {
        ProcessActionView::Keep
    } else if requested {
        ProcessActionView::Start(before.profile())
    } else {
        ProcessActionView::Stop
    }
}

/// The reply to a toggle and what the process controller is to do.
#[derive(Debug, PartialEq, Eq)]
pub struct Toggle {
    pub reply: Vec<Primitive>,
    pub action: ProcessAction,
}

/// Answers whether the proxy runs. `running` is what was seen of the process.
/// Settings that say "enabled" of a proxy that does not run are put right;
/// the dirty flag is not touched.
pub fn get_clash_status(settings: &mut Settings, running: bool) -> (reply: Vec<Primitive>)
    ensures
        final(settings)@ == old(settings)@.reconciled(running),
        primitive_views(reply@) == seq![PrimitiveView::Bool(running)],
{
    if !running && settings.enable {
        settings.enable = false;
    }
    bool_reply(running)
}

/// Turns the proxy on or off.
///
/// Without a flag at the first position nothing happens and the reply is
/// empty. A flag that equals the current one changes nothing and asks nothing
/// of the process controller. Otherwise the flag is taken over, whether or
/// not the controller will succeed, and the state is marked dirty. Turning on
/// with no profile selected selects that of the first subscription, and the
/// controller is started with the profile that is then selected.
pub fn set_clash_status(
    settings: &mut Settings,
    state: &mut RuntimeState,
    params: &Vec<Primitive>,
) -> (out: Toggle)
    ensures
        first_bool(primitive_views(params@)) is None ==> (final(settings)@ == old(settings)@
            && final(state)@ == old(state)@
            && primitive_views(out.reply@) == Seq::<PrimitiveView>::empty()
            && out.action@ == ProcessActionView::Keep),
        first_bool(primitive_views(params@)) matches Some(requested) ==> (final(settings)@
            == old(settings)@.toggled(requested)
            && primitive_views(out.reply@) == seq![PrimitiveView::Bool(requested)]
            && out.action@ == toggle_action(old(settings)@, requested)),
        first_bool(primitive_views(params@)) matches Some(requested) ==> (requested
            != old(settings)@.enable ==> final(state)@ == old(state)@.marked()),
        first_bool(primitive_views(params@)) == Some(old(settings)@.enable) ==> (final(settings)@
            == old(settings)@ && final(state)@ == old(state)@ && out.action@
            == ProcessActionView::Keep),
        first_bool(primitive_views(params@)) == Some(true) && !old(settings)@.enable
            && old(settings)@.current_sub.len() == 0 && old(settings)@.subscriptions.len() > 0
            ==> (final(settings)@.current_sub == old(settings)@.subscriptions[0].path
            && out.action@ == ProcessActionView::Start(old(settings)@.subscriptions[0].path)),
        first_bool(primitive_views(params@)) == Some(true) && !old(settings)@.enable
            ==> out.action@ == ProcessActionView::Start(final(settings)@.current_sub),
        final(settings)@ != old(settings)@ ==> final(state)@.dirty,
        old(state)@.dirty ==> final(state)@.dirty,
{
    let requested = match read_bool(params) {
        Some(requested) => requested,
        None => {
            return Toggle { reply: empty_reply(), action: ProcessAction::Keep };
        },
    };
    if settings.enable == requested {
        return Toggle { reply: bool_reply(requested), action: ProcessAction::Keep };
    }
    let action = if requested {
        if settings.current_sub.as_str().is_empty() && settings.subscriptions.len() > 0 {
            settings.current_sub = settings.subscriptions[0].path.clone();
        }
        ProcessAction::Start(settings.current_sub.clone())
    } else {
        ProcessAction::Stop
    };
    settings.enable = requested;
    state.dirty = true;
    Toggle { reply: bool_reply(requested), action }
}

/// The reply to a network reset. `done` tells whether the reset went
/// through; the reply is empty either way.
pub fn reset_network(done: bool) -> (reply: Vec<Primitive>)
    ensures
        primitive_views(reply@) == Seq::<PrimitiveView>::empty(),
{
    empty_reply()
}

/// The reply to a poll of the download register: its value as text.
pub fn get_download_status(status: &DownloadStatus) -> (reply: Vec<Primitive>)
    ensures
        primitive_views(reply@) == seq![PrimitiveView::Text(status.name())],
{
    text_reply(status.to_string())
}

/// The reply to a poll of the update register: its value as text.
pub fn get_update_status(status: &DownloadStatus) -> (reply: Vec<Primitive>)
    ensures
        primitive_views(reply@) == seq![PrimitiveView::Text(status.name())],
{
    text_reply(status.to_string())
}

/// Selects a profile.
///
/// With text at the first position that text becomes the selected profile,
/// whether or not a subscription has that path, and the state is marked
/// dirty. Without, nothing happens. The reply is empty.
pub fn set_sub(settings: &mut Settings, state: &mut RuntimeState, params: &Vec<Primitive>) -> (reply:
    Vec<Primitive>)
    ensures
        primitive_views(reply@) == Seq::<PrimitiveView>::empty(),
        first_text(primitive_views(params@)) is None ==> (final(settings)@ == old(settings)@
            && final(state)@ == old(state)@),
        first_text(primitive_views(params@)) matches Some(path) ==> (final(settings)@
            == old(settings)@.selected(path) && final(state)@ == old(state)@.marked()),
        old(state)@.dirty ==> final(state)@.dirty,
{
    match read_text(params) {
        Some(path) => {
            settings.current_sub = path;
            state.dirty = true;
        },
        None => {},
    }
    empty_reply()
}

/// Lists the subscriptions: the reply carries one text, the JSON array with
/// one object for each subscription, in the order of the list. Where the
/// list cannot be encoded the reply is empty; the empty list always can.
pub fn get_sub_list(settings: &Settings) -> (reply: Vec<Primitive>)
    ensures
        json_list(settings@.subscriptions) is None ==> primitive_views(reply@).len() == 0,
        json_list(settings@.subscriptions) matches Some(text) ==> primitive_views(reply@)
            == seq![PrimitiveView::Text(text)],
        settings@.subscriptions.len() == 0 ==> primitive_views(reply@).len() == 1,
{
    sub_list_reply(encode_subscriptions(&settings.subscriptions))
}

/// The reply to a listing: the encoded list, or nothing where it could not be
/// encoded.
pub fn sub_list_reply(encoded: Option<String>) -> (reply: Vec<Primitive>)
    ensures
        encoded is None ==> primitive_views(reply@) == Seq::<PrimitiveView>::empty(),
        encoded matches Some(text) ==> primitive_views(reply@) == seq![
            PrimitiveView::Text(text@),
        ],
{
    match encoded {
        Some(text) => text_reply(text),
        None => empty_reply(),
    }
}

/// What a download task starts from.
#[derive(Debug, PartialEq, Eq)]
pub struct DownloadTask {
    /// Where to fetch from.
    pub url: String,
    /// The home directory, under which the file is stored.
    pub home: String,
    /// The time the fetch may take, in seconds.
    pub timeout: u64,
}

/// The reply to a download call and, where one was started, the task.
#[derive(Debug, PartialEq, Eq)]
pub struct DownloadStart {
    pub reply: Vec<Primitive>,
    pub task: Option<DownloadTask>,
}

/// How a download task ended, over sequences.
pub enum DownloadEndView {
    TransportFailed,
    ContentInvalid,
    DirectoryFailed,
    Stored { path: Seq<char>, written: bool },
}

/// How a download task ended.
#[derive(Debug, PartialEq, Eq)]
pub enum DownloadEnd {
    /// The fetch failed.
    TransportFailed,
    /// The content is no valid configuration. No file was written.
    ContentInvalid,
    /// The directory for the file could not be made. No file was written.
    DirectoryFailed,
    /// The content was given the file at `path`. `written` tells whether the
    /// write went through.
    Stored { path: String, written: bool },
}

impl View for DownloadEnd {
    type V = DownloadEndView;

    open spec fn view(&self) -> DownloadEndView {
        match self {
            DownloadEnd::TransportFailed => DownloadEndView::TransportFailed,
            DownloadEnd::ContentInvalid => DownloadEndView::ContentInvalid,
            DownloadEnd::DirectoryFailed => DownloadEndView::DirectoryFailed,
            DownloadEnd::Stored { path, written } => DownloadEndView::Stored {
                path: path@,
                written: *written,
            },
        }
    }
}

impl DownloadEndView {
    /// The value that the download register takes at this end. A write that
    /// did not go through does not take the success back.
    pub open spec fn status(self) -> DownloadStatus {
        match self {
            DownloadEndView::TransportFailed => DownloadStatus::Failed,
            DownloadEndView::ContentInvalid => DownloadStatus::Error,
            DownloadEndView::DirectoryFailed => DownloadStatus::Error,
            DownloadEndView::Stored { .. } => DownloadStatus::Success,
        }
    }
}

/// What a download task does once the fetch is over, over sequences.
pub enum DownloadStepView {
    End(DownloadEndView),
    Store { directory: Seq<char>, path: Seq<char> },
}

/// What a download task does once the fetch is over.
#[derive(Debug, PartialEq, Eq)]
pub enum DownloadStep {
    /// Nothing is stored; the task ends this way.
    End(DownloadEnd),
    /// The directory is made, if it is not there, and the content is
    /// written to the file at `path`.
    Store { directory: String, path: String },
}

impl View for DownloadStep {
    type V = DownloadStepView;

    open spec fn view(&self) -> DownloadStepView {
        match self {
            DownloadStep::End(end) => DownloadStepView::End(end@),
            DownloadStep::Store { directory, path } => DownloadStepView::Store {
                directory: directory@,
                path: path@,
            },
        }
    }
}

/// Starts a download.
///
/// With text at the first position, the download register reads
/// `Downloading` at once, whatever it read before, and the task to run in
/// the background is returned: it fetches from that text as its URL, within
/// `FETCH_TIMEOUT`. Without, nothing happens. The reply is empty and does not
/// wait for the task.
pub fn download_sub(status: &mut DownloadStatus, state: &RuntimeState, params: &Vec<Primitive>) -> (out:
    DownloadStart)
    ensures
        primitive_views(out.reply@) == Seq::<PrimitiveView>::empty(),
        first_text(primitive_views(params@)) is None ==> (*final(status) == *old(status)
            && out.task is None),
        first_text(primitive_views(params@)) is Some ==> *final(status)
            == DownloadStatus::Downloading,
        first_text(primitive_views(params@)) matches Some(url) ==> (out.task matches Some(task)
            && task.url@ == url && task.home@ == state@.home && task.timeout == FETCH_TIMEOUT),
{
    match read_text(params) {
        Some(url) => {
            *status = DownloadStatus::Downloading;
            DownloadStart {
                reply: empty_reply(),
                task: Some(DownloadTask { url, home: state.home.clone(), timeout: FETCH_TIMEOUT }),
            }
        },
        None => DownloadStart { reply: empty_reply(), task: None },
    }
}

/// Decides what a download task does once the fetch is over: a failed fetch
/// and invalid content end the task with nothing stored; valid content is
/// stored in a new file in the subscription directory under the task's home
/// directory.
pub fn download_fetched(task: &DownloadTask, fetched: Fetched) -> (step: DownloadStep)
    ensures
        fetched is Failed ==> step@ == DownloadStepView::End(DownloadEndView::TransportFailed),
        fetched is Invalid ==> step@ == DownloadStepView::End(DownloadEndView::ContentInvalid),
        fetched is Valid ==> (step@ matches DownloadStepView::Store { directory, path }
            && directory == directory_of(task.home@) && is_new_file_in(path, directory)),
{
    match fetched {
        Fetched::Failed => DownloadStep::End(DownloadEnd::TransportFailed),
        Fetched::Invalid => DownloadStep::End(DownloadEnd::ContentInvalid),
        Fetched::Valid => {
            let directory = subscription_dir(task.home.as_str());
            let file_name = new_subscription_file_name();
            let path = file_path(directory.as_str(), file_name.as_str());
            proof {
                assert(path@.take(directory@.len() as int) =~= directory@);
                assert(path@.skip(directory@.len() as int) =~= file_name@);
            }
            DownloadStep::Store { directory, path }
        },
    }
}

/// The subscription that a download from `url` adds when it ends with its
/// content in a file: that file's path, and `url`.
pub open spec fn stored_subscription(end: DownloadEndView, url: Seq<char>) -> SubscriptionView {
    SubscriptionView { path: end->path, url }
}

/// Records how the download from `url` ended.
///
/// The download register takes the value of that end. Where the content was
/// given a file, one subscription with that file's path and `url` is added at
/// the end of the list and the state is marked dirty, also where the write
/// did not go through. At every other end the settings and the state stay as
/// they are.
pub fn download_finished(
    settings: &mut Settings,
    state: &mut RuntimeState,
    status: &mut DownloadStatus,
    url: String,
    end: DownloadEnd,
)
    ensures
        *final(status) == end@.status(),
        end@ is Stored ==> (*final(status) == DownloadStatus::Success
            && final(settings)@ == old(settings)@.appended(stored_subscription(end@, url@))
            && final(state)@ == old(state)@.marked()),
        end@ is Stored ==> (final(settings)@.subscriptions.len()
            == old(settings)@.subscriptions.len() + 1
            && final(settings)@.subscriptions.last().url == url@),
        !(end@ is Stored) ==> (final(settings)@ == old(settings)@
            && final(state)@ == old(state)@),
        end@ is TransportFailed ==> *final(status) == DownloadStatus::Failed,
        end@ is ContentInvalid ==> *final(status) == DownloadStatus::Error,
        final(settings)@ != old(settings)@ ==> final(state)@.dirty,
        old(state)@.dirty ==> final(state)@.dirty,
{
    match end {
        DownloadEnd::TransportFailed => {
            *status = DownloadStatus::Failed;
        },
        DownloadEnd::ContentInvalid => {
            *status = DownloadStatus::Error;
        },
        DownloadEnd::DirectoryFailed => {
            *status = DownloadStatus::Error;
        },
        DownloadEnd::Stored { path, written: _ } => {
            *status = DownloadStatus::Success;
            let ghost before = settings.subscriptions@;
            let sub = Subscription::new(path, url);
            settings.subscriptions.push(sub);
            state.dirty = true;
            assert(subscription_views(settings.subscriptions@) =~= subscription_views(before).push(
                sub@,
            ));
        },
    }
}

/// Records that a download task could not reach the settings or the state to
/// record its end: the download register reads `Error`.
pub fn download_unrecorded(status: &mut DownloadStatus)
    ensures
        *final(status) == DownloadStatus::Error,
{
    *status = DownloadStatus::Error;
}

/// The position that a delete call names in a list of `len` subscriptions:
/// the index at the first position, if it lies inside the list.
pub open spec fn delete_index(params: Seq<PrimitiveView>, len: nat) -> Option<int> {
    match first_index(params) {
        Some(index) => if index < len {
            Some(index as int)
        } else {
            None
        },
        None => None,
    }
}

/// The file that a delete call asks to remove: that of the subscription it
/// names. A call that names none asks for no file operation.
pub fn delete_target(settings: &Settings, params: &Vec<Primitive>) -> (file: Option<String>)
    ensures
        delete_index(primitive_views(params@), settings@.subscriptions.len()) is None
            ==> file is None,
        delete_index(primitive_views(params@), settings@.subscriptions.len()) matches Some(index)
            ==> (file matches Some(path) && path@ == settings@.subscriptions[index].path),
{
    match read_index(params) {
        Some(index) => {
            if index < settings.subscriptions.len() {
                Some(settings.subscriptions[index].path.clone())
            } else {
                None
            }
        },
        None => None,
    }
}

/// Deletes the subscription that the call names. `removed` tells whether its
/// file is gone: removed now, or absent before.
///
/// A call that names no subscription changes nothing, and neither does one
/// whose file is still there. Otherwise the subscription leaves the list, the
/// others keep their order, and the state is marked dirty; if its path was
/// the selected profile, no profile is selected afterwards. The reply is
/// empty.
pub fn delete_sub(
    settings: &mut Settings,
    state: &mut RuntimeState,
    params: &Vec<Primitive>,
    removed: bool,
) -> (reply: Vec<Primitive>)
    ensures
        primitive_views(reply@) == Seq::<PrimitiveView>::empty(),
        delete_index(primitive_views(params@), old(settings)@.subscriptions.len()) is None
            || !removed ==> (final(settings)@ == old(settings)@ && final(state)@ == old(state)@),
        delete_index(primitive_views(params@), old(settings)@.subscriptions.len()) matches Some(
            index,
        ) ==> (removed ==> final(settings)@ == old(settings)@.deleted(index)
            && final(state)@ == old(state)@.marked()
            && final(settings)@.subscriptions == old(settings)@.subscriptions.remove(index)),
        delete_index(primitive_views(params@), old(settings)@.subscriptions.len()) matches Some(
            index,
        ) ==> (removed && old(settings)@.subscriptions[index].path == old(settings)@.current_sub
            ==> final(settings)@.current_sub.len() == 0),
        delete_index(primitive_views(params@), old(settings)@.subscriptions.len()) matches Some(
            index,
        ) ==> (removed && old(settings)@.subscriptions[index].path != old(settings)@.current_sub
            ==> final(settings)@.current_sub == old(settings)@.current_sub),
        final(settings)@ != old(settings)@ ==> final(state)@.dirty,
        old(state)@.dirty ==> final(state)@.dirty,
{
    match read_index(params) {
        Some(index) => {
            if removed && index < settings.subscriptions.len() {
                let ghost before = settings.subscriptions@;
                if settings.subscriptions[index].path == settings.current_sub {
                    settings.current_sub = String::new();
                }
                settings.subscriptions.remove(index);
                state.dirty = true;
                assert(subscription_views(settings.subscriptions@) =~= subscription_views(
                    before,
                ).remove(index as int));
            }
        },
        None => {},
    }
    empty_reply()
}

/// The reply to an update call and the subscriptions to refresh.
#[derive(Debug, PartialEq, Eq)]
pub struct UpdateStart {
    pub reply: Vec<Primitive>,
    /// The subscriptions to refresh, one task each.
    pub subscriptions: Vec<Subscription>,
    /// The time each fetch may take, in seconds.
    pub timeout: u64,
}

/// Starts a refresh of all subscriptions: the update register reads
/// `Downloading`, and the list as it stands now is handed out, one item for
/// each task to spawn. The settings are only read. The reply is empty.
pub fn update_subs(status: &mut DownloadStatus, settings: &Settings) -> (out: UpdateStart)
    ensures
        *final(status) == DownloadStatus::Downloading,
        *final(status) == update_step(*old(status), UpdateEvent::Started),
        primitive_views(out.reply@) == Seq::<PrimitiveView>::empty(),
        subscription_views(out.subscriptions@) == settings@.subscriptions,
        out.timeout == FETCH_TIMEOUT,
{
    *status = DownloadStatus::Downloading;
    let subscriptions = settings.subscriptions.clone();
    assert(subscriptions@ =~= settings.subscriptions@);
    UpdateStart { reply: empty_reply(), subscriptions, timeout: FETCH_TIMEOUT }
}

/// The file that a refresh of `sub` overwrites after its fetch: the
/// subscription's own, where valid content came, and none otherwise. A refresh
/// adds no subscription and reports to no register.
pub fn refresh_target(sub: &Subscription, fetched: Fetched) -> (file: Option<String>)
    ensures
        fetched is Valid ==> (file matches Some(path) && path@ == sub@.path),
        !(fetched is Valid) ==> file is None,
{
    match fetched {
        Fetched::Valid => Some(sub.path.clone()),
        _ => None,
    }
}

/// Ends the supervising task of a refresh, once it has spawned a task for
/// every subscription. The update register reads `Success` from then on: the
/// supervisor neither waits for the tasks nor learns how they end, so the
/// value says that the refresh was started for every subscription, not that
/// any of them was refreshed.
pub fn update_spawned(status: &mut DownloadStatus)
    ensures
        *final(status) == DownloadStatus::Success,
        *final(status) == update_step(*old(status), UpdateEvent::Spawned),
{
    *status = DownloadStatus::Success;
}

} // verus!
