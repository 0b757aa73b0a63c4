//! The persisted aggregate: the enabled flag, the selected profile and the
//! ordered list of subscriptions.

use vstd::prelude::*;

verus! {

/// The characters of a subscription's two fields.
pub struct SubscriptionView {
    pub path: Seq<char>,
    pub url: Seq<char>,
}

/// A remote configuration source mirrored to a local file.
#[derive(Debug, PartialEq, Eq)]
pub struct Subscription {
    pub path: String,
    pub url: String,
}

impl View for Subscription {
    type V = SubscriptionView;

    open spec fn view(&self) -> SubscriptionView {
        SubscriptionView { path: self.path@, url: self.url@ }
    }
}

impl Clone for Subscription {
    fn clone(&self) -> (copy: Self)
        ensures
            copy == *self,
    {
        Subscription { path: self.path.clone(), url: self.url.clone() }
    }
}

impl Subscription {
    /// A subscription stored at `path` and fetched from `url`.
    pub fn new(path: String, url: String) -> (sub: Self)
        ensures
            sub.path == path,
            sub.url == url,
    {
        Subscription { path, url }
    }
}

/// The views of a run of subscriptions, in the same order.
pub open spec fn subscription_views(subs: Seq<Subscription>) -> Seq<SubscriptionView> {
    subs.map_values(|sub: Subscription| sub@)
}

/// What the settings hold, over sequences.
pub struct SettingsView {
    pub enable: bool,
    pub current_sub: Seq<char>,
    pub subscriptions: Seq<SubscriptionView>,
}

impl SettingsView {
    /// The profile that a start uses: the selected one; if none is selected,
    /// that of the first subscription; if there is none either, the empty
    /// path.
    pub open spec fn profile(self) -> Seq<char> {
        if self.current_sub.len() > 0 || self.subscriptions.len() == 0 {
            self.current_sub
        } else {
            self.subscriptions[0].path
        }
    }

    /// The settings after the proxy was asked to be on or off. Asking for
    /// what already holds changes nothing. Turning on settles the profile.
    pub open spec fn toggled(self, requested: bool) -> SettingsView {
        if requested == self.enable {
            self
        } else if requested {
            SettingsView { enable: true, current_sub: self.profile(), ..self }
        } else {
            SettingsView { enable: false, ..self }
        }
    }

    /// The settings after the process was seen running or not: a proxy that
    /// is not running is not enabled.
    pub open spec fn reconciled(self, running: bool) -> SettingsView {
        SettingsView { enable: self.enable && running, ..self }
    }

    /// The settings with `path` as the selected profile.
    pub open spec fn selected(self, path: Seq<char>) -> SettingsView {
        SettingsView { current_sub: path, ..self }
    }

    /// The settings with `sub` added at the end of the list.
    pub open spec fn appended(self, sub: SubscriptionView) -> SettingsView {
        SettingsView { subscriptions: self.subscriptions.push(sub), ..self }
    }

    /// The settings without the subscription at `index`. If its path was the
    /// selected profile, no profile is selected afterwards. An index outside
    /// the list changes nothing.
    pub open spec fn deleted(self, index: int) -> SettingsView {
        if 0 <= index < self.subscriptions.len() {
            SettingsView {
                enable: self.enable,
                current_sub: if self.subscriptions[index].path == self.current_sub {
                    Seq::empty()
                } else {
                    self.current_sub
                },
                subscriptions: self.subscriptions.remove(index),
            }
        } else {
            self
        }
    }
}

/// Deleting the subscription whose path is the selected profile leaves no
/// profile selected. Deleting another one leaves the selection, unless the
/// two have the same path.
pub proof fn deletion_and_selection(settings: SettingsView, selected: int, index: int)
    requires
        0 <= selected < settings.subscriptions.len(),
        0 <= index < settings.subscriptions.len(),
        settings.current_sub == settings.subscriptions[selected].path,
    ensures
        index == selected ==> settings.deleted(index).current_sub.len() == 0,
        settings.subscriptions[index].path != settings.subscriptions[selected].path
            ==> settings.deleted(index).current_sub == settings.current_sub,
        settings.deleted(index).subscriptions == settings.subscriptions.remove(index),
        settings.deleted(index).enable == settings.enable,
{
}

/// The settings a front end edits. An empty `current_sub` means that no
/// profile is selected. The position of a subscription in the list is the
/// identifier that callers delete it by.
#[derive(Debug, PartialEq, Eq)]
pub struct Settings {
    pub enable: bool,
    pub current_sub: String,
    pub subscriptions: Vec<Subscription>,
}

impl View for Settings {
    type V = SettingsView;

    open spec fn view(&self) -> SettingsView {
        SettingsView {
            enable: self.enable,
            current_sub: self.current_sub@,
            subscriptions: subscription_views(self.subscriptions@),
        }
    }
}

impl Settings {
    /// Settings of a fresh installation: disabled, nothing selected, no
    /// subscriptions.
    pub fn new() -> (settings: Self)
        ensures
            !settings@.enable,
            settings@.current_sub.len() == 0,
            settings@.subscriptions.len() == 0,
    {
        Settings { enable: false, current_sub: String::new(), subscriptions: Vec::new() }
    }
}

} // verus!
