//! The icon in the system tray, its menu, and what the user has set for the window and the log.
use crate::text::{i32_value, parse_i32, same_text, texts};
use vstd::prelude::*;
use vstd::string::*;

verus! {

/// What the user has set.
#[derive(Debug, Clone, Copy, PartialEq, Eq)]
pub struct Settings {
    /// Closing the window leaves the application in the tray.
    pub minimize_to_tray: bool,
    /// How many lines the log of the WireSock process holds.
    pub log_limit: i32,
}

/// What a click in the tray menu asks for.
#[derive(Debug, Clone, Copy, PartialEq, Eq, Structural)]
pub enum MenuAction {
    /// Hide the window.
    Hide,
    /// Hide the window, save where it was, and end the application.
    Exit,
    /// Stop WireSock.
    Disconnect,
    /// Enable the tunnel that the entry stands for.
    Connect,
    /// Nothing.
    Ignore,
}

/// What closing the window comes to.
#[derive(Debug, Clone, Copy, PartialEq, Eq, Structural)]
pub enum CloseAction {
    /// The window is hidden and stays.
    Hide,
    /// The window is closed.
    Close,
}

/// The icons of the tray.
#[derive(Debug, Clone, Copy, PartialEq, Eq, Structural)]
pub enum TrayIcon {
    Enabled,
    Default,
}

/// What is done about a tunnel that was picked in the tray menu.
#[derive(Debug)]
pub enum ConnectAction {
    /// Send the window this event, with the tunnel's name.
    Emit { event: String, tunnel_id: String },
    /// Report this failure.
    Report(String),
}

/// What a click on the entry `id` asks for, in a menu with these entries for tunnels.
pub open spec fn menu_action(id: Seq<char>, connect_items: Seq<Seq<char>>) -> MenuAction {
    if id == "minimize"@ {
        MenuAction::Hide
    } else if id == "exit"@ {
        MenuAction::Exit
    } else if id == "disconnect"@ {
        MenuAction::Disconnect
    } else if connect_items.contains(id) {
        MenuAction::Connect
    } else {
        MenuAction::Ignore
    }
}

/// Each entry of the menu that is not a tunnel's asks for one thing, whatever the tunnels are
/// called. Any other entry asks for a tunnel exactly where it is in the list of tunnels.
pub proof fn law_menu(id: Seq<char>, connect_items: Seq<Seq<char>>)
    ensures
        menu_action(id, connect_items) is Hide <==> id == "minimize"@,
        menu_action(id, connect_items) is Exit <==> id == "exit"@,
        menu_action(id, connect_items) is Disconnect <==> id == "disconnect"@,
        menu_action(id, connect_items) is Connect <==> id != "minimize"@ && id != "exit"@ && id
            != "disconnect"@ && exists|k: int|
            0 <= k < connect_items.len() && #[trigger] connect_items[k] == id,
        menu_action(id, connect_items) is Ignore <==> id != "minimize"@ && id != "exit"@ && id
            != "disconnect"@ && forall|k: int|
            0 <= k < connect_items.len() ==> #[trigger] connect_items[k] != id,
{
    reveal_strlit("minimize");
    reveal_strlit("exit");
    reveal_strlit("disconnect");
    assert("minimize"@.len() == 8);
    assert("exit"@.len() == 4);
    assert("disconnect"@.len() == 10);
    if connect_items.contains(id) {
        let k = choose|k: int| 0 <= k < connect_items.len() && connect_items[k] == id;
        assert(connect_items[k] == id);
    }
}

impl Settings {
    /// What is set before the user sets anything.
    pub fn new() -> (settings: Self)
        ensures
            settings == (Settings { minimize_to_tray: true, log_limit: 50 }),
    {
        Settings { minimize_to_tray: true, log_limit: 50 }
    }

    /// Sets whether closing the window leaves the application in the tray.
    pub fn set_minimize_to_tray(&mut self, value: bool)
        ensures
            *final(self) == (Settings { minimize_to_tray: value, ..*old(self) }),
    {
        self.minimize_to_tray = value;
    }

    /// Sets how many lines the log holds, to the number that `value` writes.
    pub fn set_log_limit(&mut self, value: &str)
        requires
            i32_value(value@) is Some,
        ensures
            *final(self) == (Settings { log_limit: i32_value(value@)->Some_0, ..*old(self) }),
    {
        match parse_i32(value) {
            Some(limit) => {
                self.log_limit = limit;
            },
            None => {},
        }
    }

    /// What closing the window comes to.
    pub fn close_action(&self) -> (action: CloseAction)
        ensures
            action == (if self.minimize_to_tray {
                CloseAction::Hide
            } else {
                CloseAction::Close
            }),
    {
        if self.minimize_to_tray {
            CloseAction::Hide
        } else {
            CloseAction::Close
        }
    }
}

/// What a click on the entry `id` asks for, in a menu with these entries for tunnels.
pub fn menu_click(id: &str, connect_items: &Vec<String>) -> (action: MenuAction)
    ensures
        action == menu_action(id@, texts(connect_items@)),
        action is Hide <==> id@ == "minimize"@,
        action is Exit <==> id@ == "exit"@,
        action is Disconnect <==> id@ == "disconnect"@,
        action is Connect <==> id@ != "minimize"@ && id@ != "exit"@ && id@ != "disconnect"@
            && exists|k: int| 0 <= k < connect_items@.len() && #[trigger] connect_items@[k]@ == id@,
{
    proof {
        law_menu(id@, texts(connect_items@));
        assert(texts(connect_items@).len() == connect_items@.len());
        assert forall|k: int| 0 <= k < connect_items@.len() implies texts(connect_items@)[k]
            == #[trigger] connect_items@[k]@ by {}
    }
    if same_text(id, "minimize") {
        return MenuAction::Hide;
    }
    if same_text(id, "exit") {
        return MenuAction::Exit;
    }
    if same_text(id, "disconnect") {
        return MenuAction::Disconnect;
    }
    let mut i: usize = 0;
    while i < connect_items.len()
        invariant
            i <= connect_items@.len(),
            id@ != "minimize"@,
            id@ != "exit"@,
            id@ != "disconnect"@,
            forall|k: int| 0 <= k < i ==> #[trigger] texts(connect_items@)[k] != id@,
        decreases connect_items@.len() - i,
    {
        assert(texts(connect_items@)[i as int] == connect_items@[i as int]@);
        if same_text(connect_items[i].as_str(), id) {
            return MenuAction::Connect;
        }
        i += 1;
    }
    MenuAction::Ignore
}

/// The icon that shows whether a tunnel is enabled.
pub fn change_icon(enabled: bool) -> (icon: TrayIcon)
    ensures
        icon == (if enabled {
            TrayIcon::Enabled
        } else {
            TrayIcon::Default
        }),
{
    if enabled {
        TrayIcon::Enabled
    } else {
        TrayIcon::Default
    }
}

/// What is done about the tunnel that was picked in the tray menu, once every other one was to be
/// stopped and was, or could not be for the reason given.
pub fn connect_to_tunnel(disabled: Result<(), String>, tunnel_id: &str) -> (action: ConnectAction)
    ensures
        disabled is Ok ==> (action matches ConnectAction::Emit { event, tunnel_id: id }
            && event@ == "systray_connect_menu_clicked"@ && id@ == tunnel_id@),
        disabled matches Err(error) ==> (action matches ConnectAction::Report(text) && text@
            == "Failed to disable WireSock: "@ + error@),
{
    match disabled {
        Ok(()) => ConnectAction::Emit {
            event: "systray_connect_menu_clicked".to_owned(),
            tunnel_id: tunnel_id.to_owned(),
        },
        Err(error) => {
            let mut text: String = "Failed to disable WireSock: ".to_owned();
            text.append(error.as_str());
            ConnectAction::Report(text)
        },
    }
}

} // verus!
