//! What the user interface keeps besides its widgets: the theme, the
//! view in front, and the notifications on screen.

use vstd::prelude::*;

pub mod app;
pub mod components;
pub mod messages;
pub mod styles;
pub mod views;
pub mod widgets;

verus! {

/// The application's theme.
#[derive(Debug, Clone, Copy, PartialEq, Eq, Structural)]
pub enum Theme {
    Dark,
    Light,
}

impl Default for Theme {
    fn default() -> (theme: Self)
        ensures
            theme == Theme::Dark,
    {
        Theme::Dark
    }
}

/// The views of the application.
#[derive(Debug, Clone, Copy, PartialEq, Eq, Structural)]
pub enum AppView {
    /// The device list with the action panel.
    Main,
    /// The settings.
    Settings,
    /// About the application.
    About,
    /// The first view, shown while the services start.
    Loading,
}

impl Default for AppView {
    fn default() -> (view: Self)
        ensures
            view == AppView::Loading,
    {
        AppView::Loading
    }
}

/// The most notifications that are kept on screen.
pub const MAX_NOTIFICATIONS: usize = 5;

/// The window's title for a view.
pub open spec fn title_of(view: AppView) -> Seq<char> {
    match view {
        AppView::Main => "AirWin - Condivisione Apple"@,
        AppView::Settings => "AirWin - Impostazioni"@,
        AppView::About => "AirWin - Informazioni"@,
        AppView::Loading => "AirWin - Caricamento"@,
    }
}

/// The window's title for a view.
pub fn title_for(view: AppView) -> (title: String)
    ensures
        title@ == title_of(view),
{
    match view {
        AppView::Main => "AirWin - Condivisione Apple".to_string(),
        AppView::Settings => "AirWin - Impostazioni".to_string(),
        AppView::About => "AirWin - Informazioni".to_string(),
        AppView::Loading => "AirWin - Caricamento".to_string(),
    }
}

/// The notifications that stay on screen when one more is added: all of
/// them while there is room, all but the oldest once five are shown.
pub open spec fn kept_notifications<T>(shown: Seq<T>) -> Seq<T> {
    if shown.len() + 1 > MAX_NOTIFICATIONS {
        shown.drop_first()
    } else {
        shown
    }
}

/// Adds a notification, shown for three seconds, to those on screen. The
/// new one comes last, and of more than five the oldest is dropped.
pub fn add_notification(
    shown: &mut Vec<messages::NotificationMessage>,
    title: String,
    message: String,
    notification_type: messages::NotificationType,
)
    ensures
        final(shown)@.len() > 0,
        final(shown)@.drop_last() == kept_notifications(old(shown)@),
        final(shown)@.last().is(title@, message@, notification_type, 3000),
        old(shown)@.len() <= MAX_NOTIFICATIONS ==> final(shown)@.len() <= MAX_NOTIFICATIONS,
{
    let notification = messages::NotificationMessage {
        title,
        content: message,
        notification_type,
        duration_ms: Some(3000),
    };
    shown.push(notification);
    let ghost pushed = shown@;
    assert(pushed.drop_last() =~= old(shown)@);
    if shown.len() > MAX_NOTIFICATIONS {
        shown.remove(0);
        assert(shown@ =~= pushed.drop_first());
        assert(shown@.drop_last() =~= old(shown)@.drop_first());
    }
}

} // verus!
