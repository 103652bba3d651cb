//! What the tray shows: tooltip, menu and icon, each computed from the
//! presentation state on demand.

use vstd::prelude::*;
use vstd::string::*;
use crate::geo::{GeoInfo, GeoInfoView};
use crate::icons::{get_flag, FlagTable, ICON_SIZE};
use crate::text::concat;

verus! {

/// What a click on a menu item asks the coordinator to do.
#[derive(Debug, Clone, Copy, PartialEq, Eq, Structural)]
pub enum TrayCommand {
    Refresh,
    ToggleAutostart,
    CheckUpdate,
    RunUpdate,
    Quit,
}

/// One line of the tray menu.
#[derive(Debug, Clone)]
pub enum MenuItem {
    /// Text that cannot be clicked.
    Label { label: String },
    /// A dividing line.
    Separator,
    /// Text that sends `command` when clicked.
    Action { label: String, command: TrayCommand },
    /// A check box that sends `command` when clicked.
    Checkmark { label: String, checked: bool, command: TrayCommand },
}

/// Mathematical model of a [`MenuItem`].
pub enum MenuItemView {
    Label { label: Seq<char> },
    Separator,
    Action { label: Seq<char>, command: TrayCommand },
    Checkmark { label: Seq<char>, checked: bool, command: TrayCommand },
}

impl View for MenuItem {
    type V = MenuItemView;

    open spec fn view(&self) -> MenuItemView {
        match *self {
            MenuItem::Label { label } => MenuItemView::Label { label: label@ },
            MenuItem::Separator => MenuItemView::Separator,
            MenuItem::Action { label, command } => MenuItemView::Action { label: label@, command },
            MenuItem::Checkmark { label, checked, command } => MenuItemView::Checkmark {
                label: label@,
                checked,
                command,
            },
        }
    }
}

/// The models of a sequence of menu items.
pub open spec fn menu_view(items: Seq<MenuItem>) -> Seq<MenuItemView> {
    items.map_values(|item: MenuItem| item@)
}

/// Title and body of the tooltip.
#[derive(Debug, Clone)]
pub struct ToolTip {
    pub title: String,
    pub description: String,
}

/// A decoded picture: rows of pixels from the top, each pixel as four
/// bytes in the order red, green, blue, alpha.
#[derive(Debug, Clone)]
pub struct Bitmap {
    pub width: u32,
    pub height: u32,
    pub pixels: Vec<u8>,
}

/// A picture as the tray takes it: rows of pixels from the top, each pixel
/// as four bytes in the order alpha, red, green, blue.
#[derive(Debug, Clone)]
pub struct Icon {
    pub width: i32,
    pub height: i32,
    pub data: Vec<u8>,
}

/// The bytes of whole pixels in `rgba`, with the alpha byte of each pixel
/// moved to the front.
pub open spec fn argb_of(rgba: Seq<u8>) -> Seq<u8> {
    Seq::new(
        (rgba.len() / 4 * 4) as nat,
        |i: int|
            if i % 4 == 0 {
                rgba[i + 3]
            } else {
                rgba[i - 1]
            },
    )
}

impl Bitmap {
    /// True if the picture has four bytes for each of its pixels.
    pub open spec fn complete(&self) -> bool {
        self.pixels@.len() == 4 * self.width * self.height
    }
}

/// True if `icon` is the transparent square that stands for a picture that
/// could not be decoded.
pub open spec fn is_blank_icon(icon: Icon) -> bool {
    &&& icon.width == ICON_SIZE
    &&& icon.height == ICON_SIZE
    &&& icon.data@ == Seq::new((ICON_SIZE * ICON_SIZE * 4) as nat, |i: int| 0u8)
}

/// True if `icon` shows `decoded`: the picture itself with its bytes in
/// the tray's order, or the blank icon where there is no picture.
pub open spec fn is_icon_of(decoded: Option<Bitmap>, icon: Icon) -> bool {
    match decoded {
        Some(bitmap) => {
            &&& icon.width == bitmap.width as i32
            &&& icon.height == bitmap.height as i32
            &&& icon.data@ == argb_of(bitmap.pixels@)
        },
        None => is_blank_icon(icon),
    }
}

/// Decodes a picture from the bytes of an image file.
///
/// Calls `image::load_from_memory`, then `DynamicImage::to_rgba8`,
/// `ImageBuffer::dimensions` and `ImageBuffer::pixels`. Trusted: `None` is
/// returned if the bytes cannot be decoded; a decoded picture comes with
/// four bytes for each of its `width * height` pixels. Which picture the
/// bytes decode to is not stated: a program may register decoders of its
/// own with that crate, and they take part in the call.
#[verifier::external_body]
pub(crate) fn decode_rgba(encoded: &[u8]) -> (decoded: Option<Bitmap>)
    ensures
        decoded matches Some(bitmap) ==> bitmap.complete(),
{
    match image::load_from_memory(encoded) {
        Ok(picture) => {
            let rgba = picture.to_rgba8();
            let (width, height) = rgba.dimensions();
            let pixels = rgba.pixels().flat_map(|pixel| pixel.0).collect();
            Some(Bitmap { width, height, pixels })
        },
        Err(_) => None,
    }
}

/// Reorders the bytes of each whole pixel from red, green, blue, alpha to
/// alpha, red, green, blue.
pub fn argb_from_rgba(rgba: &Vec<u8>) -> (argb: Vec<u8>)
    ensures
        argb@ == argb_of(rgba@),
{
    let mut argb: Vec<u8> = Vec::new();
    let mut i: usize = 0;
    while rgba.len() - i >= 4
        invariant
            0 <= i <= rgba.len(),
            i % 4 == 0,
            argb@.len() == i,
            forall|j: int| 0 <= j < i ==> argb@[j] == argb_of(rgba@)[j],
        decreases rgba.len() - i,
    {
        argb.push(rgba[i + 3]);
        argb.push(rgba[i]);
        argb.push(rgba[i + 1]);
        argb.push(rgba[i + 2]);
        i = i + 4;
    }
    assert(argb@ =~= argb_of(rgba@));
    argb
}

/// The icon that shows a decoded picture, or the blank icon where the
/// picture could not be decoded.
pub fn icon_from_bitmap(decoded: Option<Bitmap>) -> (icon: Icon)
    ensures
        is_icon_of(decoded, icon),
{
    match decoded {
        Some(bitmap) => Icon {
            width: bitmap.width as i32,
            height: bitmap.height as i32,
            data: argb_from_rgba(&bitmap.pixels),
        },
        None => {
            let data = vec![0u8; (ICON_SIZE * ICON_SIZE * 4) as usize];
            assert(data@ =~= Seq::new((ICON_SIZE * ICON_SIZE * 4) as nat, |i: int| 0u8));
            Icon { width: ICON_SIZE as i32, height: ICON_SIZE as i32, data }
        },
    }
}

/// Presentation state of the tray.
#[derive(Debug, Clone)]
pub struct NetworkTray {
    /// Last known location, if any.
    pub geo_info: Option<GeoInfo>,
    /// Whether autostart is enabled.
    pub autostart_enabled: bool,
    /// Version of a pending update, if any.
    pub update_available: Option<String>,
    /// Whether an update check is running.
    pub checking_update: bool,
}

/// Mathematical model of a [`NetworkTray`].
pub struct NetworkTrayView {
    pub geo_info: Option<GeoInfoView>,
    pub autostart_enabled: bool,
    pub update_available: Option<Seq<char>>,
    pub checking_update: bool,
}

impl View for NetworkTray {
    type V = NetworkTrayView;

    open spec fn view(&self) -> NetworkTrayView {
        NetworkTrayView {
            geo_info: match self.geo_info {
                Some(geo) => Some(geo@),
                None => None,
            },
            autostart_enabled: self.autostart_enabled,
            update_available: match self.update_available {
                Some(version) => Some(version@),
                None => None,
            },
            checking_update: self.checking_update,
        }
    }
}

/// Country and code on one line: `country (code)`.
pub open spec fn country_line(geo: GeoInfoView) -> Seq<char> {
    geo.country + " ("@ + geo.country_code + ")"@
}

/// The menu's lines about the location: four lines of text for a known
/// location, one placeholder line without it.
pub open spec fn location_lines(location: Option<GeoInfoView>) -> Seq<MenuItemView> {
    match location {
        Some(geo) => seq![
            MenuItemView::Label { label: "IP: "@ + geo.query },
            MenuItemView::Label { label: "Country: "@ + country_line(geo) },
            MenuItemView::Label { label: "City: "@ + geo.city },
            MenuItemView::Label { label: "ISP: "@ + geo.isp },
        ],
        None => seq![MenuItemView::Label { label: "Fetching location..."@ }],
    }
}

/// The menu's line about updates: a notice while a check runs; else the
/// offer to install the pending version; else the offer to check.
pub open spec fn update_line(checking: bool, available: Option<Seq<char>>) -> MenuItemView {
    if checking {
        MenuItemView::Label { label: "\u{201a}\u{e8}\u{2265} Checking for updates..."@ }
    } else {
        match available {
            Some(version) => MenuItemView::Action {
                label: "\u{f8ff}\u{fc}\u{ee}\u{a5} Update to "@ + version
                    + " (click to install)"@,
                command: TrayCommand::RunUpdate,
            },
            None => MenuItemView::Action {
                label: "Check for Updates"@,
                command: TrayCommand::CheckUpdate,
            },
        }
    }
}

/// The whole menu, top to bottom: the lines about the location, the
/// refresh item, the autostart check box, the line about updates and the
/// quit item, with separators between the groups.
pub open spec fn menu_model(tray: NetworkTrayView) -> Seq<MenuItemView> {
    location_lines(tray.geo_info) + seq![
        MenuItemView::Separator,
        MenuItemView::Action { label: "Refresh"@, command: TrayCommand::Refresh },
        MenuItemView::Checkmark {
            label: "Launch on Login"@,
            checked: tray.autostart_enabled,
            command: TrayCommand::ToggleAutostart,
        },
        MenuItemView::Separator,
        update_line(tray.checking_update, tray.update_available),
        MenuItemView::Separator,
        MenuItemView::Action { label: "Quit"@, command: TrayCommand::Quit },
    ]
}

/// Title of the tooltip: country and code, or the program's name while no
/// location is known.
pub open spec fn tool_tip_title(location: Option<GeoInfoView>) -> Seq<char> {
    match location {
        Some(geo) => country_line(geo),
        None => "Network Monitor"@,
    }
}

/// Body of the tooltip: address, city and provider on a line each, or a
/// placeholder while no location is known.
pub open spec fn tool_tip_description(location: Option<GeoInfoView>) -> Seq<char> {
    match location {
        Some(geo) => "IP: "@ + geo.query + "\nCity: "@ + geo.city + "\nISP: "@ + geo.isp,
        None => "Fetching location..."@,
    }
}

/// The code to look the flag up by: that of the location, or `xx` while
/// none is known.
pub open spec fn country_code_of(location: Option<GeoInfoView>) -> Seq<char> {
    match location {
        Some(geo) => geo.country_code,
        None => "xx"@,
    }
}

/// The location on one line: `city, country (code)`, or "Unknown
/// location" while none is known.
pub open spec fn location_text_of(location: Option<GeoInfoView>) -> Seq<char> {
    match location {
        Some(geo) => geo.city + ", "@ + country_line(geo),
        None => "Unknown location"@,
    }
}

impl NetworkTray {
    /// A tray with the given location and autostart flag, no pending
    /// update and no check running.
    pub fn new(geo_info: Option<GeoInfo>, autostart_enabled: bool) -> (tray: Self)
        ensures
            tray.geo_info == geo_info,
            tray.autostart_enabled == autostart_enabled,
            tray.update_available is None,
            !tray.checking_update,
    {
        NetworkTray { geo_info, autostart_enabled, update_available: None, checking_update: false }
    }

    /// Replaces the location as a whole.
    pub fn update_geo_info(&mut self, info: Option<GeoInfo>)
        ensures
            final(self).geo_info == info,
            final(self).autostart_enabled == old(self).autostart_enabled,
            final(self).update_available == old(self).update_available,
            final(self).checking_update == old(self).checking_update,
    {
        self.geo_info = info;
    }

    /// The country code to look the flag up by: that of the location, or
    /// `xx` without one.
    pub fn current_country_code(&self) -> (code: String)
        ensures
            code@ == country_code_of(self@.geo_info),
    {
        match &self.geo_info {
            Some(geo) => geo.country_code.clone(),
            None => String::from_str("xx"),
        }
    }

    /// The location on one line: `city, country (code)`, or "Unknown
    /// location" without one.
    pub fn location_text(&self) -> (text: String)
        ensures
            text@ == location_text_of(self@.geo_info),
    {
        match &self.geo_info {
            Some(geo) => {
                let mut text = concat(geo.city.as_str(), ", ");
                text.append(geo.country.as_str());
                text.append(" (");
                text.append(geo.country_code.as_str());
                text.append(")");
                assert(text@ =~= geo.city@ + ", "@ + country_line(geo@));
                text
            },
            None => String::from_str("Unknown location"),
        }
    }

    /// Identifier of the tray item.
    pub fn id(&self) -> (id: String)
        ensures
            id@ == "network-monitor"@,
    {
        String::from_str("network-monitor")
    }

    /// Title of the tray item.
    pub fn title(&self) -> (title: String)
        ensures
            title@ == "Network Monitor"@,
    {
        String::from_str("Network Monitor")
    }

    /// The icon of the tray: the flag of the current country code out of
    /// `flags`, decoded and in the tray's byte order; the blank icon if the
    /// flag cannot be decoded.
    pub fn icon_pixmap(&self, flags: &FlagTable) -> (icons: Vec<Icon>)
        ensures
            icons@.len() == 1,
            exists|decoded: Option<Bitmap>|
                (decoded matches Some(bitmap) ==> bitmap.complete()) && #[trigger] is_icon_of(
                    decoded,
                    icons@[0],
                ),
    {
        let country_code = self.current_country_code();
        let flag = get_flag(flags, country_code.as_str());
        let decoded = decode_rgba(flag.data);
        let icon = icon_from_bitmap(decoded);
        let mut icons: Vec<Icon> = Vec::new();
        icons.push(icon);
        assert(is_icon_of(decoded, icons@[0]));
        icons
    }

    /// The tooltip: country and code over address, city and provider, or a
    /// placeholder while no location is known.
    pub fn tool_tip(&self) -> (tip: ToolTip)
        ensures
            tip.title@ == tool_tip_title(self@.geo_info),
            tip.description@ == tool_tip_description(self@.geo_info),
    {
        match &self.geo_info {
            Some(geo) => {
                let mut title = concat(geo.country.as_str(), " (");
                title.append(geo.country_code.as_str());
                title.append(")");
                assert(title@ =~= country_line(geo@));
                let mut description = concat("IP: ", geo.query.as_str());
                description.append("\nCity: ");
                description.append(geo.city.as_str());
                description.append("\nISP: ");
                description.append(geo.isp.as_str());
                ToolTip { title, description }
            },
            None => ToolTip {
                title: String::from_str("Network Monitor"),
                description: String::from_str("Fetching location..."),
            },
        }
    }

    /// The menu, computed anew from the state: the lines about the
    /// location, the refresh item, the autostart check box, the line about
    /// updates and the quit item, with separators between the groups.
    pub fn menu(&self) -> (items: Vec<MenuItem>)
        ensures
            menu_view(items@) == menu_model(self@),
    {
        let mut items: Vec<MenuItem> = Vec::new();
        match &self.geo_info {
            Some(geo) => {
                items.push(MenuItem::Label { label: concat("IP: ", geo.query.as_str()) });
                let mut country = concat("Country: ", geo.country.as_str());
                country.append(" (");
                country.append(geo.country_code.as_str());
                country.append(")");
                assert(country@ =~= "Country: "@ + country_line(geo@));
                items.push(MenuItem::Label { label: country });
                items.push(MenuItem::Label { label: concat("City: ", geo.city.as_str()) });
                items.push(MenuItem::Label { label: concat("ISP: ", geo.isp.as_str()) });
            },
            None => {
                items.push(MenuItem::Label { label: String::from_str("Fetching location...") });
            },
        }
        assert(menu_view(items@) =~= location_lines(self@.geo_info));
        items.push(MenuItem::Separator);
        items.push(
            MenuItem::Action { label: String::from_str("Refresh"), command: TrayCommand::Refresh },
        );
        items.push(
            MenuItem::Checkmark {
                label: String::from_str("Launch on Login"),
                checked: self.autostart_enabled,
                command: TrayCommand::ToggleAutostart,
            },
        );
        items.push(MenuItem::Separator);
        if self.checking_update {
            items.push(
                MenuItem::Label {
                    label: String::from_str("\u{201a}\u{e8}\u{2265} Checking for updates..."),
                },
            );
        } else {
            match &self.update_available {
                Some(version) => {
                    let mut label = concat(
                        "\u{f8ff}\u{fc}\u{ee}\u{a5} Update to ",
                        version.as_str(),
                    );
                    label.append(" (click to install)");
                    items.push(MenuItem::Action { label, command: TrayCommand::RunUpdate });
                },
                None => {
                    items.push(
                        MenuItem::Action {
                            label: String::from_str("Check for Updates"),
                            command: TrayCommand::CheckUpdate,
                        },
                    );
                },
            }
        }
        items.push(MenuItem::Separator);
        items.push(
            MenuItem::Action { label: String::from_str("Quit"), command: TrayCommand::Quit },
        );
        assert(menu_view(items@) =~= menu_model(self@));
        items
    }
}

} // verus!
