//! The Steam lookups: how a user is named on the command line, where the
//! parts of a profile are asked for, and how they are put into words.
//! Asking the Steam API and sending the reply is the caller's work.

use vstd::prelude::*;
use vstd::string::StringExecFns;

use crate::card::{optional_field, push_field, push_optional_field, Field, FieldView};
use crate::text::{concat3, concat4, concat5, decimal, decimal_text};

verus! {

/// What the main Steam command can look up.
#[derive(Clone, Copy, Debug, PartialEq, Eq, Structural)]
pub enum Subcommand {
    /// Information about a user.
    User,
}

/// How the argument of a user lookup names the user.
#[derive(Clone, Copy, Debug, PartialEq, Eq, Structural)]
pub enum ArgType {
    /// By the vanity name of the profile's address.
    Vanity,
    /// By the numeric Steam id.
    Id,
}

/// What Steam tells about a player.
#[derive(Clone, Debug, PartialEq, Eq)]
pub struct PlayerSummary {
    /// The unique Steam id of the user.
    pub steam_id: String,
    /// The displayed name, which is not unique on Steam.
    pub persona_name: String,
    /// Address of the user's avatar.
    pub avatar: String,
    /// When the user last logged off, in seconds since the UNIX epoch.
    pub last_logoff: Option<i64>,
    /// When the account was created, in seconds since the UNIX epoch.
    pub time_created: Option<i64>,
    /// 1 where the profile is private.
    pub community_visibility_state: u8,
    /// Address of the user's profile.
    pub profile_url: String,
    /// Name of the game that the user is playing.
    pub game_extra_info: Option<String>,
    /// The user's status, as a number.
    pub persona_state: u8,
}

/// Mathematical value of a [`PlayerSummary`].
pub struct PlayerSummaryView {
    pub steam_id: Seq<char>,
    pub persona_name: Seq<char>,
    pub avatar: Seq<char>,
    pub last_logoff: Option<i64>,
    pub time_created: Option<i64>,
    pub community_visibility_state: u8,
    pub profile_url: Seq<char>,
    pub game_extra_info: Option<Seq<char>>,
    pub persona_state: u8,
}

impl View for PlayerSummary {
    type V = PlayerSummaryView;

    open spec fn view(&self) -> PlayerSummaryView {
        PlayerSummaryView {
            steam_id: self.steam_id@,
            persona_name: self.persona_name@,
            avatar: self.avatar@,
            last_logoff: self.last_logoff,
            time_created: self.time_created,
            community_visibility_state: self.community_visibility_state,
            profile_url: self.profile_url@,
            game_extra_info: self.game_extra_info.deep_view(),
            persona_state: self.persona_state,
        }
    }
}

/// What Steam tells about a player's bans.
#[derive(Clone, Copy, Debug, PartialEq, Eq, Structural)]
pub struct VacBans {
    pub vac_banned: bool,
    pub number_of_bans: u8,
    pub days_since_last_ban: u16,
}

/// Where the Steam id behind a vanity name is asked for.
pub open spec fn vanity_lookup_address(api_key: Seq<char>, vanity: Seq<char>) -> Seq<char> {
    "https://api.steampowered.com/ISteamUser/ResolveVanityURL/v0001/?key="@ + api_key
        + "&vanityurl="@ + vanity
}

/// Where a player's summary is asked for.
pub open spec fn player_summary_address(api_key: Seq<char>, steam_id: Seq<char>) -> Seq<char> {
    "http://api.steampowered.com/ISteamUser/GetPlayerSummaries/v0002/?key="@ + api_key
        + "&steamids="@ + steam_id
}

/// Where the number of a player's games is asked for.
pub open spec fn owned_games_address(api_key: Seq<char>, steam_id: Seq<char>) -> Seq<char> {
    "http://api.steampowered.com/IPlayerService/GetOwnedGames/v0001/?key="@ + api_key
        + "&steamid="@ + steam_id + "&format=json"@
}

/// Where a player's level is asked for.
pub open spec fn steam_level_address(api_key: Seq<char>, steam_id: Seq<char>) -> Seq<char> {
    "http://api.steampowered.com/IPlayerService/GetSteamLevel/v1/?key="@ + api_key
        + "&steamid="@ + steam_id + "&format=json"@
}

/// Where a player's bans are asked for.
pub open spec fn player_bans_address(api_key: Seq<char>, steam_id: Seq<char>) -> Seq<char> {
    "http://api.steampowered.com/ISteamUser/GetPlayerBans/v1?key="@ + api_key + "&steamids="@
        + steam_id
}

/// The address at which the Steam id behind a vanity name is asked for.
pub fn vanity_lookup_url(api_key: &str, vanity: &str) -> (url: String)
    ensures
        url@ == vanity_lookup_address(api_key@, vanity@),
{
    concat4(
        "https://api.steampowered.com/ISteamUser/ResolveVanityURL/v0001/?key=",
        api_key,
        "&vanityurl=",
        vanity,
    )
}

/// The address at which a player's summary is asked for.
pub fn player_summary_url(api_key: &str, steam_id: &str) -> (url: String)
    ensures
        url@ == player_summary_address(api_key@, steam_id@),
{
    concat4(
        "http://api.steampowered.com/ISteamUser/GetPlayerSummaries/v0002/?key=",
        api_key,
        "&steamids=",
        steam_id,
    )
}

/// The address at which the number of a player's games is asked for.
pub fn owned_games_url(api_key: &str, steam_id: &str) -> (url: String)
    ensures
        url@ == owned_games_address(api_key@, steam_id@),
{
    concat5(
        "http://api.steampowered.com/IPlayerService/GetOwnedGames/v0001/?key=",
        api_key,
        "&steamid=",
        steam_id,
        "&format=json",
    )
}

/// The address at which a player's level is asked for.
pub fn steam_level_url(api_key: &str, steam_id: &str) -> (url: String)
    ensures
        url@ == steam_level_address(api_key@, steam_id@),
{
    concat5(
        "http://api.steampowered.com/IPlayerService/GetSteamLevel/v1/?key=",
        api_key,
        "&steamid=",
        steam_id,
        "&format=json",
    )
}

/// The address at which a player's bans are asked for.
pub fn player_bans_url(api_key: &str, steam_id: &str) -> (url: String)
    ensures
        url@ == player_bans_address(api_key@, steam_id@),
{
    concat4(
        "http://api.steampowered.com/ISteamUser/GetPlayerBans/v1?key=",
        api_key,
        "&steamids=",
        steam_id,
    )
}

/// The Steam id that the argument gives without any lookup: the argument
/// itself where it is an id, none where it is a vanity name.
pub fn known_steam_id(arg_type: ArgType, arg: &str) -> (steam_id: Option<String>)
    ensures
        steam_id.deep_view() == match arg_type {
            ArgType::Id => Some(arg@),
            ArgType::Vanity => None,
        },
{
    match arg_type {
        ArgType::Id => Some(arg.to_owned()),
        ArgType::Vanity => None,
    }
}

/// The reply for a user that Steam does not know.
pub open spec fn not_found_message(arg_type: ArgType, arg: Seq<char>) -> Seq<char> {
    match arg_type {
        ArgType::Id => "User with steam id \""@ + arg + "\" not found."@,
        ArgType::Vanity => "User with vanity name \""@ + arg + "\" not found."@,
    }
}

/// Writes the reply for a user that Steam does not know.
pub fn not_found_text(arg_type: ArgType, arg: &str) -> (text: String)
    ensures
        text@ == not_found_message(arg_type, arg@),
{
    match arg_type {
        ArgType::Id => concat3("User with steam id \"", arg, "\" not found."),
        ArgType::Vanity => concat3("User with vanity name \"", arg, "\" not found."),
    }
}

/// The words for a persona state: states 0 to 6 have a status of their own,
/// every other number is unknown.
pub open spec fn status_text(persona_state: u8) -> Seq<char> {
    if persona_state == 0 {
        "⚫ Offline"@
    } else if persona_state == 1 {
        "🟢 Online"@
    } else if persona_state == 2 {
        "🔴 Busy"@
    } else if persona_state == 3 {
        "🟡 Away"@
    } else if persona_state == 4 {
        "🔵 Snooze"@
    } else if persona_state == 5 {
        "🟠 Looking to trade"@
    } else if persona_state == 6 {
        "🟣 Looking to play"@
    } else {
        "⚪ Unknown"@
    }
}

/// The status of a user (online, offline, busy and so on) for the persona
/// state that Steam reports.
pub fn get_status(persona_state: &u8) -> (status: String)
    ensures
        status@ == status_text(*persona_state),
{
    match *persona_state {
        0 => String::from_str("⚫ Offline"),
        1 => String::from_str("🟢 Online"),
        2 => String::from_str("🔴 Busy"),
        3 => String::from_str("🟡 Away"),
        4 => String::from_str("🔵 Snooze"),
        5 => String::from_str("🟠 Looking to trade"),
        6 => String::from_str("🟣 Looking to play"),
        _ => String::from_str("⚪ Unknown"),
    }
}

/// The words for a profile's visibility: state 1 is private, every other
/// state is public.
pub open spec fn privacy_text(community_visibility_state: u8) -> Seq<char> {
    if community_visibility_state == 1 {
        "Private"@
    } else {
        "Public"@
    }
}

/// Writes the words for a profile's visibility.
pub fn get_privacy(community_visibility_state: u8) -> (text: String)
    ensures
        text@ == privacy_text(community_visibility_state),
{
    if community_visibility_state == 1 {
        String::from_str("Private")
    } else {
        String::from_str("Public")
    }
}

/// The words for a player's bans: how many, and how long ago the last.
pub open spec fn ban_text(bans: VacBans) -> Seq<char> {
    "**"@ + decimal_text(bans.number_of_bans as nat) + "** ("@ + decimal_text(
        bans.days_since_last_ban as nat,
    ) + " days ago)"@
}

/// Writes the words for a player's bans.
pub fn get_ban_text(bans: &VacBans) -> (text: String)
    ensures
        text@ == ban_text(*bans),
{
    let count = decimal(bans.number_of_bans as u64);
    let days = decimal(bans.days_since_last_ban as u64);
    concat5("**", count.as_str(), "** (", days.as_str(), " days ago)")
}

/// The title of a profile: the displayed name, and the level in brackets.
pub open spec fn profile_title_text(persona_name: Seq<char>, steam_level: u8) -> Seq<char> {
    persona_name + " ["@ + decimal_text(steam_level as nat) + "]"@
}

/// Writes the title of a profile.
pub fn profile_title(persona_name: &str, steam_level: u8) -> (title: String)
    ensures
        title@ == profile_title_text(persona_name@, steam_level),
{
    let level = decimal(steam_level as u64);
    concat4(persona_name, " [", level.as_str(), "]")
}

/// The calendar date of a moment given in seconds since the UNIX epoch, in
/// UTC, as the month's English name, the day of the month and the year
/// (`January  5, 2015`); none for a moment outside the years that the
/// calendar library can hold.
pub uninterp spec fn calendar_date_text(secs: i64) -> Option<Seq<char>>;

/// Calls chrono: `DateTime::from_timestamp` makes the moment from the
/// seconds, with no nanoseconds, and `NaiveDateTime::format` writes its UTC
/// date with the pattern `%B %e, %Y`. The contract only gives the outcome
/// its name: the text for these seconds, or none where `from_timestamp`
/// returns none because the seconds are out of range.
#[verifier::external_body]
fn calendar_date(secs: i64) -> (text: Option<String>)
    ensures
        text.deep_view() == calendar_date_text(secs),
{
    match chrono::DateTime::from_timestamp(secs, 0) {
        Some(moment) => Some(moment.naive_utc().format("%B %e, %Y").to_string()),
        None => None,
    }
}

/// The date of an optional moment: none where there is no moment.
pub open spec fn optional_date_text(moment: Option<i64>) -> Option<Seq<char>> {
    match moment {
        Some(secs) => calendar_date_text(secs),
        None => None,
    }
}

/// Every moment that the summary holds has a calendar date.
pub open spec fn dates_in_range(summary: PlayerSummaryView) -> bool {
    &&& summary.time_created matches Some(secs) ==> calendar_date_text(secs) is Some
    &&& summary.last_logoff matches Some(secs) ==> calendar_date_text(secs) is Some
}

/// The fields of a user's profile, in the order in which they are shown:
/// the id; the creation date and the last logoff, side by side, where Steam
/// tells them; the privacy; the bans, where there are any; the status; the
/// game being played and the number of games owned, where Steam tells them.
pub open spec fn profile_field_list(
    summary: PlayerSummaryView,
    created: Option<Seq<char>>,
    last_logoff: Option<Seq<char>>,
    bans: VacBans,
    game_count: Option<u32>,
) -> Seq<FieldView> {
    seq![FieldView { name: "SteamID"@, value: summary.steam_id, inline: false }]
        + optional_field("Account created"@, created, true)
        + optional_field("Last logoff"@, last_logoff, true)
        + seq![
        FieldView {
            name: "Account privacy"@,
            value: privacy_text(summary.community_visibility_state),
            inline: false,
        },
    ] + optional_field(
        "🚫 VAC bans"@,
        if bans.vac_banned {
            Some(ban_text(bans))
        } else {
            None
        },
        false,
    ) + seq![
        FieldView { name: "Status"@, value: status_text(summary.persona_state), inline: false },
    ] + optional_field("Currently playing"@, summary.game_extra_info, false) + optional_field(
        "Owned games"@,
        match game_count {
            Some(count) => Some(decimal_text(count as nat)),
            None => None,
        },
        false,
    )
}

/// Builds the fields of a user's profile from what Steam told and from the
/// two dates as they are to be shown.
pub fn profile_fields_dated(
    summary: &PlayerSummary,
    created: Option<String>,
    last_logoff: Option<String>,
    bans: &VacBans,
    game_count: Option<u32>,
) -> (fields: Vec<Field>)
    ensures
        fields.deep_view() == profile_field_list(
            summary@,
            created.deep_view(),
            last_logoff.deep_view(),
            *bans,
            game_count,
        ),
{
    let mut fields: Vec<Field> = Vec::new();
    push_field(&mut fields, "SteamID", summary.steam_id.clone(), false);
    push_optional_field(&mut fields, "Account created", created, true);
    push_optional_field(&mut fields, "Last logoff", last_logoff, true);
    push_field(
        &mut fields,
        "Account privacy",
        get_privacy(summary.community_visibility_state),
        false,
    );
    let ban_words = if bans.vac_banned {
        Some(get_ban_text(bans))
    } else {
        None
    };
    push_optional_field(&mut fields, "🚫 VAC bans", ban_words, false);
    push_field(&mut fields, "Status", get_status(&summary.persona_state), false);
    push_optional_field(&mut fields, "Currently playing", summary.game_extra_info.clone(), false);
    let owned = match game_count {
        Some(count) => Some(decimal(count as u64)),
        None => None,
    };
    push_optional_field(&mut fields, "Owned games", owned, false);
    fields
}

/// Writes the date of an optional moment. The outer `None` tells that there
/// is a moment and that it has no calendar date.
fn optional_date(moment: Option<i64>) -> (date: Option<Option<String>>)
    ensures
        match date {
            Some(text) => text.deep_view() == optional_date_text(moment) && (moment is Some
                ==> text is Some),
            None => moment matches Some(secs) && calendar_date_text(secs) is None,
        },
{
    match moment {
        None => Some(None),
        Some(secs) => match calendar_date(secs) {
            Some(text) => Some(Some(text)),
            None => None,
        },
    }
}

/// Builds the fields of a user's profile from what Steam told, with both
/// dates written as calendar dates. There are no fields where one of the
/// moments has no calendar date.
pub fn profile_fields(summary: &PlayerSummary, bans: &VacBans, game_count: Option<u32>) -> (fields:
    Option<Vec<Field>>)
    ensures
        fields is Some <==> dates_in_range(summary@),
        fields matches Some(list) ==> list.deep_view() == profile_field_list(
            summary@,
            optional_date_text(summary@.time_created),
            optional_date_text(summary@.last_logoff),
            *bans,
            game_count,
        ),
{
    let created = match optional_date(summary.time_created) {
        Some(text) => text,
        None => {
            return None;
        },
    };
    let last_logoff = match optional_date(summary.last_logoff) {
        Some(text) => text,
        None => {
            return None;
        },
    };
    Some(profile_fields_dated(summary, created, last_logoff, bans, game_count))
}

/// The fields of the short overview of a user, in the order in which they
/// are shown: the id; the creation date and the last logoff, side by side,
/// where Steam tells them; the game being played, where Steam tells it; the
/// privacy.
pub open spec fn overview_field_list(
    summary: PlayerSummaryView,
    created: Option<Seq<char>>,
    last_logoff: Option<Seq<char>>,
) -> Seq<FieldView> {
    seq![FieldView { name: "SteamID"@, value: summary.steam_id, inline: false }]
        + optional_field("Account created"@, created, true)
        + optional_field("Last logoff"@, last_logoff, true)
        + optional_field("Currently playing"@, summary.game_extra_info, false)
        + seq![
        FieldView {
            name: "Account privacy"@,
            value: privacy_text(summary.community_visibility_state),
            inline: false,
        },
    ]
}

/// Builds the fields of the short overview of a user from what Steam told
/// and from the two dates as they are to be shown.
pub fn overview_fields_dated(
    summary: &PlayerSummary,
    created: Option<String>,
    last_logoff: Option<String>,
) -> (fields: Vec<Field>)
    ensures
        fields.deep_view() == overview_field_list(
            summary@,
            created.deep_view(),
            last_logoff.deep_view(),
        ),
{
    let mut fields: Vec<Field> = Vec::new();
    push_field(&mut fields, "SteamID", summary.steam_id.clone(), false);
    push_optional_field(&mut fields, "Account created", created, true);
    push_optional_field(&mut fields, "Last logoff", last_logoff, true);
    push_optional_field(&mut fields, "Currently playing", summary.game_extra_info.clone(), false);
    push_field(
        &mut fields,
        "Account privacy",
        get_privacy(summary.community_visibility_state),
        false,
    );
    fields
}

/// Builds the fields of the short overview of a user from what Steam told,
/// with both dates written as calendar dates. There are no fields where one
/// of the moments has no calendar date.
pub fn overview_fields(subcommand: Subcommand, summary: &PlayerSummary) -> (fields: Option<
    Vec<Field>,
>)
    ensures
        fields is Some <==> dates_in_range(summary@),
        fields matches Some(list) ==> list.deep_view() == overview_field_list(
            summary@,
            optional_date_text(summary@.time_created),
            optional_date_text(summary@.last_logoff),
        ),
{
    match subcommand {
        Subcommand::User => {
            let created = match optional_date(summary.time_created) {
                Some(text) => text,
                None => {
                    return None;
                },
            };
            let last_logoff = match optional_date(summary.last_logoff) {
                Some(text) => text,
                None => {
                    return None;
                },
            };
            Some(overview_fields_dated(summary, created, last_logoff))
        },
    }
}

} // verus!
