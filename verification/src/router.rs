//! The event router: turns each inbound platform event into one of a small
//! closed set of intents, and holds the fixed hotkey and context-menu tables.
//!
//! The router has no state of its own; the event loop decodes a raw platform
//! message into an [`OsEvent`], asks [`classify`] for the [`Intent`], and
//! performs it — switching desktops through the controller, or carrying out
//! a lifecycle action directly.

use vstd::prelude::*;

verus! {

/// First hotkey and menu slot; slot `k` switches to desktop index `k - 1`.
pub const SLOT_FIRST: i32 = 1;

/// Last hotkey and menu slot.
pub const SLOT_LAST: i32 = 9;

/// Menu command identifier of the Exit entry.
pub const MENU_EXIT_ID: usize = 1000;

/// The platform's notification code for a secondary-button release delivered
/// to the notification-area icon.
pub const TRAY_SECONDARY_RELEASE: u32 = 0x0205;

/// Virtual-key code of the digit one on the main keyboard row; the digit
/// keys have consecutive codes.
pub const VK_DIGIT_ONE: u32 = 0x31;

/// An inbound platform event, decoded from the raw message by the event
/// loop. Identifiers are carried as the platform delivered them, unchecked:
/// deciding what they mean is the router's job.
#[derive(Clone, Copy, Debug, PartialEq, Eq, Structural)]
pub enum OsEvent {
    /// The hidden window has just been created.
    WindowCreated,
    /// A registered global hotkey fired; `id` is the hotkey identifier.
    HotkeyPressed { id: i32 },
    /// The notification-area icon was interacted with; `code` is the
    /// platform's notification code for the interaction.
    TrayIconNotified { code: u32 },
    /// A context-menu entry was selected; `command` is its identifier.
    MenuCommand { command: usize },
    /// The hidden window is being destroyed.
    WindowDestroyed,
    /// Any other platform message.
    Other,
}

/// What the event loop is to do about one event.
#[derive(Clone, Copy, Debug, PartialEq, Eq, Structural)]
pub enum Intent {
    /// Build the notification-area icon and register the hotkeys.
    Initialize,
    /// Perform a desktop switch towards this desktop index.
    SwitchTo { index: u32 },
    /// Build and display the notification icon's context menu.
    ShowMenu,
    /// Initiate the hidden window's teardown.
    Exit,
    /// Unregister the hotkeys, remove the icon and end the event loop.
    Teardown,
    /// Delegate to default platform handling.
    Ignore,
}

/// The event-to-intent table: hotkey or menu slot `k` of `1..=9` asks for a
/// switch to desktop index `k - 1`; any identifier outside the table is left
/// to default handling.
pub open spec fn classified(event: OsEvent) -> Intent {
    match event {
        OsEvent::WindowCreated => Intent::Initialize,
        OsEvent::HotkeyPressed { id } => if SLOT_FIRST <= id <= SLOT_LAST {
            Intent::SwitchTo { index: (id - 1) as u32 }
        } else {
            Intent::Ignore
        },
        OsEvent::TrayIconNotified { code } => if code == TRAY_SECONDARY_RELEASE {
            Intent::ShowMenu
        } else {
            Intent::Ignore
        },
        OsEvent::MenuCommand { command } => if command == MENU_EXIT_ID {
            Intent::Exit
        } else if SLOT_FIRST as usize <= command <= SLOT_LAST as usize {
            Intent::SwitchTo { index: (command - 1) as u32 }
        } else {
            Intent::Ignore
        },
        OsEvent::WindowDestroyed => Intent::Teardown,
        OsEvent::Other => Intent::Ignore,
    }
}

/// Classifies one inbound event, exactly as [`classified`] says.
pub fn classify(event: OsEvent) -> (intent: Intent)
    ensures
        intent == classified(event),
{
    match event {
        OsEvent::WindowCreated => Intent::Initialize,
        OsEvent::HotkeyPressed { id } => {
            if SLOT_FIRST <= id && id <= SLOT_LAST {
                Intent::SwitchTo { index: (id - 1) as u32 }
            } else {
                Intent::Ignore
            }
        },
        OsEvent::TrayIconNotified { code } => {
            if code == TRAY_SECONDARY_RELEASE {
                Intent::ShowMenu
            } else {
                Intent::Ignore
            }
        },
        OsEvent::MenuCommand { command } => {
            if command == MENU_EXIT_ID {
                Intent::Exit
            } else if SLOT_FIRST as usize <= command && command <= SLOT_LAST as usize {
                Intent::SwitchTo { index: (command as u32) - 1 }
            } else {
                Intent::Ignore
            }
        },
        OsEvent::WindowDestroyed => Intent::Teardown,
        OsEvent::Other => Intent::Ignore,
    }
}

/// Selecting a desktop entry of the context menu is identical to pressing
/// the hotkey of the same slot.
pub proof fn lemma_menu_matches_hotkey(slot: i32)
    requires
        SLOT_FIRST <= slot <= SLOT_LAST,
    ensures
        classified(OsEvent::MenuCommand { command: slot as usize }) == classified(
            OsEvent::HotkeyPressed { id: slot },
        ),
{
}

/// One global hotkey registration: the identifier the platform will report
/// back, and the virtual key it is bound to.
#[derive(Clone, Copy, Debug, PartialEq, Eq, Structural)]
pub struct HotkeyBinding {
    /// Hotkey identifier, also the slot number.
    pub id: i32,
    /// Virtual-key code of the digit key for this slot.
    pub virtual_key: u32,
}

/// The fixed set of global hotkeys, one per desktop slot: identifiers
/// `1..=9`, each bound to the digit key with the same face value.
pub fn hotkey_bindings() -> (v: Vec<HotkeyBinding>)
    ensures
        v@.len() == SLOT_LAST as int,
        forall|k: int|
            0 <= k < v@.len() ==> (#[trigger] v@[k]) == (HotkeyBinding {
                id: (k + 1) as i32,
                virtual_key: (VK_DIGIT_ONE + k) as u32,
            }),
{
    let mut v: Vec<HotkeyBinding> = Vec::new();
    let mut id: i32 = SLOT_FIRST;
    while id <= SLOT_LAST
        invariant
            SLOT_FIRST <= id <= SLOT_LAST + 1,
            v@.len() == id - 1,
            forall|k: int|
                0 <= k < v@.len() ==> (#[trigger] v@[k]) == (HotkeyBinding {
                    id: (k + 1) as i32,
                    virtual_key: (VK_DIGIT_ONE + k) as u32,
                }),
        decreases SLOT_LAST + 1 - id,
    {
        v.push(HotkeyBinding { id, virtual_key: VK_DIGIT_ONE + (id - 1) as u32 });
        id = id + 1;
    }
    v
}

/// One entry of the notification icon's context menu, in display order.
#[derive(Clone, Copy, Debug, PartialEq, Eq, Structural)]
pub enum MenuEntry {
    /// Selectable entry that switches to the desktop slot its identifier
    /// names; selecting it delivers a [`OsEvent::MenuCommand`] with that
    /// identifier.
    DesktopSlot { id: usize },
    /// Visual divider.
    Separator,
    /// Selectable entry that ends the process.
    Exit { id: usize },
}

/// The context menu's fixed contents: one entry per desktop slot `1..=9`, a
/// separator, and the Exit entry.
pub fn menu_entries() -> (v: Vec<MenuEntry>)
    ensures
        v@.len() == SLOT_LAST as int + 2,
        forall|k: int|
            0 <= k < SLOT_LAST as int ==> (#[trigger] v@[k]) == (MenuEntry::DesktopSlot {
                id: (k + 1) as usize,
            }),
        v@[SLOT_LAST as int] == MenuEntry::Separator,
        v@[SLOT_LAST as int + 1] == (MenuEntry::Exit { id: MENU_EXIT_ID }),
{
    let mut v: Vec<MenuEntry> = Vec::new();
    let mut id: usize = SLOT_FIRST as usize;
    while id <= SLOT_LAST as usize
        invariant
            SLOT_FIRST as usize <= id <= SLOT_LAST as usize + 1,
            v@.len() == id - 1,
            forall|k: int|
                0 <= k < v@.len() ==> (#[trigger] v@[k]) == (MenuEntry::DesktopSlot {
                    id: (k + 1) as usize,
                }),
        decreases SLOT_LAST as usize + 1 - id,
    {
        v.push(MenuEntry::DesktopSlot { id });
        id = id + 1;
    }
    v.push(MenuEntry::Separator);
    v.push(MenuEntry::Exit { id: MENU_EXIT_ID });
    v
}

} // verus!
