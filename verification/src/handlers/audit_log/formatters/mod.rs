pub mod creator_monetization;
pub mod emoji;
pub mod invite;
pub mod message;
pub mod role;
pub mod stage_instance;
pub mod thread;
pub mod unknown;
pub mod webhook;


use super::{EmbedField, FieldView};
use crate::text::{
    decimal, decimal_int, ellipsize, ellipsized, hex, hex6, i64_to_string, is_boundary_at,
    opt_view, push_decimal, u64_to_string, utf8_len, zero_padded,
};
use vstd::prelude::*;

verus! {

/// The action of an entry that creates, updates or deletes something.
#[derive(Clone, Copy, PartialEq, Eq, Structural, Debug)]
pub enum CrudAction {
    Create,
    Update,
    Delete,
    Other,
}

/// The colour of an entry that creates, updates or deletes something.
pub open spec fn crud_color(a: CrudAction) -> u32 {
    match a {
        CrudAction::Create => super::COLOR_SUCCESS,
        CrudAction::Update => super::COLOR_WARNING,
        CrudAction::Delete => super::COLOR_DANGER,
        CrudAction::Other => super::COLOR_WARNING,
    }
}

/// The colour of an entry that creates, updates or deletes something.
pub fn crud_color_of(a: CrudAction) -> (r: u32)
    ensures
        r == crud_color(a),
{
    match a {
        CrudAction::Create => super::COLOR_SUCCESS,
        CrudAction::Update => super::COLOR_WARNING,
        CrudAction::Delete => super::COLOR_DANGER,
        CrudAction::Other => super::COLOR_WARNING,
    }
}

/// An optional text, or `None` when absent.
pub open spec fn text_or_none(o: Option<Seq<char>>) -> Seq<char> {
    match o {
        Some(s) => s,
        None => "None"@,
    }
}

/// A channel mention (`<#id>`), or `None`.
pub open spec fn channel_text(o: Option<u64>) -> Seq<char> {
    match o {
        Some(id) => "<#"@ + decimal(id as nat) + ">"@,
        None => "None"@,
    }
}

/// A user mention (`<@id>`), or `None`.
pub open spec fn user_text(o: Option<u64>) -> Seq<char> {
    match o {
        Some(id) => "<@"@ + decimal(id as nat) + ">"@,
        None => "None"@,
    }
}

/// A permission bit set in decimal, or `0` when absent.
pub open spec fn bits_text(o: Option<u64>) -> Seq<char> {
    match o {
        Some(b) => decimal(b as nat),
        None => "0"@,
    }
}

/// A number in decimal, or `None`.
pub open spec fn number_text(o: Option<u64>) -> Seq<char> {
    match o {
        Some(v) => decimal(v as nat),
        None => "None"@,
    }
}

/// `true` or `false`, or `None`.
pub open spec fn bool_text(o: Option<bool>) -> Seq<char> {
    match o {
        Some(b) => if b {
            "true"@
        } else {
            "false"@
        },
        None => "None"@,
    }
}

/// A bitrate in whole kilobits per second (`128kbps`), or `None`.
pub open spec fn kbps_text(o: Option<u64>) -> Seq<char> {
    match o {
        Some(v) => decimal((v / 1000) as nat) + "kbps"@,
        None => "None"@,
    }
}

/// A colour as `#` and six upper-case hexadecimal digits, or `None`.
pub open spec fn color_text(o: Option<u32>) -> Seq<char> {
    match o {
        Some(c) => "#"@ + zero_padded(hex(c as nat), 6),
        None => "None"@,
    }
}

/// A relative Discord timestamp (`<t:unix:R>`), or `None`.
pub open spec fn timestamp_text(o: Option<i64>) -> Seq<char> {
    match o {
        Some(t) => "<t:"@ + decimal_int(t as int) + ":R>"@,
        None => "None"@,
    }
}

/// A number of days (`7 days`), or `None`.
pub open spec fn days_text(o: Option<u64>) -> Seq<char> {
    match o {
        Some(v) => decimal(v as nat) + " days"@,
        None => "None"@,
    }
}

/// A duration in seconds (`60s`), `Never` for zero, or `None`.
pub open spec fn never_text(o: Option<u64>) -> Seq<char> {
    match o {
        Some(v) => if v == 0 {
            "Never"@
        } else {
            decimal(v as nat) + "s"@
        },
        None => "None"@,
    }
}

/// A count, `Unlimited` for zero, or `None`.
pub open spec fn unlimited_text(o: Option<u64>) -> Seq<char> {
    match o {
        Some(v) => if v == 0 {
            "Unlimited"@
        } else {
            decimal(v as nat)
        },
        None => "None"@,
    }
}

/// A slow-mode delay in seconds (`10s`), `Off` for zero, or `None`.
pub open spec fn off_text(o: Option<u64>) -> Seq<char> {
    match o {
        Some(v) => if v == 0 {
            "Off"@
        } else {
            decimal(v as nat) + "s"@
        },
        None => "None"@,
    }
}

/// A text (or `None`) cut to a hundred bytes, with `...` when it was longer.
pub open spec fn truncated_text(o: Option<Seq<char>>) -> Seq<char> {
    ellipsized(text_or_none(o), 100)
}

/// Whether the text can be cut at its hundredth byte when it is longer than that.
pub open spec fn cut_ok(o: Option<Seq<char>>) -> bool {
    utf8_len(text_or_none(o)) > 100 ==> is_boundary_at(text_or_none(o), 100)
}

/// A role mention (`<@&id>`).
pub open spec fn role_mention(id: u64) -> Seq<char> {
    "<@&"@ + decimal(id as nat) + ">"@
}

/// Role mentions separated by `, `.
pub open spec fn roles_text(ids: Seq<u64>) -> Seq<char>
    decreases ids.len(),
{
    if ids.len() == 0 {
        Seq::empty()
    } else if ids.len() == 1 {
        role_mention(ids[0])
    } else {
        roles_text(ids.drop_last()) + ", "@ + role_mention(ids.last())
    }
}

/// A change shown as `old → new`.
pub open spec fn plain_change(old: Seq<char>, new: Seq<char>) -> Seq<char> {
    old + " → "@ + new
}

/// A change shown as `` `old` → `new` ``.
pub open spec fn ticked_change(old: Seq<char>, new: Seq<char>) -> Seq<char> {
    "`"@ + old + "` → `"@ + new + "`"@
}

fn render_text(o: &Option<String>) -> (r: String)
    ensures
        r@ == text_or_none(opt_view(*o)),
{
    match o {
        Some(s) => s.clone(),
        None => "None".to_owned(),
    }
}

fn push_mention(out: &mut String, open: &str, id: u64)
    ensures
        final(out)@ == old(out)@ + open@ + decimal(id as nat) + ">"@,
{
    out.append(open);
    push_decimal(out, id);
    out.append(">");
}

fn render_channel(o: Option<u64>) -> (r: String)
    ensures
        r@ == channel_text(o),
{
    match o {
        Some(id) => {
            let mut r = String::new();
            push_mention(&mut r, "<#", id);
            assert(r@ =~= channel_text(o));
            r
        },
        None => "None".to_owned(),
    }
}

fn render_user(o: Option<u64>) -> (r: String)
    ensures
        r@ == user_text(o),
{
    match o {
        Some(id) => {
            let mut r = String::new();
            push_mention(&mut r, "<@", id);
            assert(r@ =~= user_text(o));
            r
        },
        None => "None".to_owned(),
    }
}

fn render_bits(o: Option<u64>) -> (r: String)
    ensures
        r@ == bits_text(o),
{
    match o {
        Some(b) => u64_to_string(b),
        None => "0".to_owned(),
    }
}

fn render_number(o: Option<u64>) -> (r: String)
    ensures
        r@ == number_text(o),
{
    match o {
        Some(v) => u64_to_string(v),
        None => "None".to_owned(),
    }
}

fn render_bool(o: Option<bool>) -> (r: String)
    ensures
        r@ == bool_text(o),
{
    match o {
        Some(b) => if b {
            "true".to_owned()
        } else {
            "false".to_owned()
        },
        None => "None".to_owned(),
    }
}

fn render_kbps(o: Option<u64>) -> (r: String)
    ensures
        r@ == kbps_text(o),
{
    match o {
        Some(v) => {
            let mut r = u64_to_string(v / 1000);
            r.append("kbps");
            r
        },
        None => "None".to_owned(),
    }
}

fn render_color(o: Option<u32>) -> (r: String)
    ensures
        r@ == color_text(o),
{
    match o {
        Some(c) => {
            let mut r = "#".to_owned();
            let digits = hex6(c);
            r.append(digits.as_str());
            r
        },
        None => "None".to_owned(),
    }
}

fn render_timestamp(o: Option<i64>) -> (r: String)
    ensures
        r@ == timestamp_text(o),
{
    match o {
        Some(t) => {
            let mut r = "<t:".to_owned();
            let n = i64_to_string(t);
            r.append(n.as_str());
            r.append(":R>");
            r
        },
        None => "None".to_owned(),
    }
}

fn render_days(o: Option<u64>) -> (r: String)
    ensures
        r@ == days_text(o),
{
    match o {
        Some(v) => {
            let mut r = u64_to_string(v);
            r.append(" days");
            r
        },
        None => "None".to_owned(),
    }
}

fn render_never(o: Option<u64>) -> (r: String)
    ensures
        r@ == never_text(o),
{
    match o {
        Some(v) => if v == 0 {
            "Never".to_owned()
        } else {
            let mut r = u64_to_string(v);
            r.append("s");
            r
        },
        None => "None".to_owned(),
    }
}

fn render_unlimited(o: Option<u64>) -> (r: String)
    ensures
        r@ == unlimited_text(o),
{
    match o {
        Some(v) => if v == 0 {
            "Unlimited".to_owned()
        } else {
            u64_to_string(v)
        },
        None => "None".to_owned(),
    }
}

fn render_off(o: Option<u64>) -> (r: String)
    ensures
        r@ == off_text(o),
{
    match o {
        Some(v) => if v == 0 {
            "Off".to_owned()
        } else {
            let mut r = u64_to_string(v);
            r.append("s");
            r
        },
        None => "None".to_owned(),
    }
}

fn render_truncated(o: &Option<String>) -> (r: String)
    requires
        cut_ok(opt_view(*o)),
    ensures
        r@ == truncated_text(opt_view(*o)),
{
    let t = render_text(o);
    ellipsize(t.as_str(), 100)
}

fn render_roles(ids: &Vec<u64>) -> (r: String)
    ensures
        r@ == roles_text(ids@),
{
    let mut r = String::new();
    let mut i: usize = 0;
    assert(ids@.take(0) =~= Seq::<u64>::empty());
    while i < ids.len()
        invariant
            i <= ids.len(),
            r@ == roles_text(ids@.take(i as int)),
        decreases ids.len() - i,
    {
        let ghost before = r@;
        if i > 0 {
            r.append(", ");
        }
        push_mention(&mut r, "<@&", ids[i]);
        assert(ids@.take(i + 1).drop_last() =~= ids@.take(i as int));
        assert(r@ =~= roles_text(ids@.take(i + 1)));
        i = i + 1;
    }
    assert(ids@.take(ids.len() as int) =~= ids@);
    r
}

fn join_plain(old: String, new: String) -> (r: String)
    ensures
        r@ == plain_change(old@, new@),
{
    let mut r = old;
    r.append(" → ");
    r.append(new.as_str());
    r
}

fn join_ticked(old: String, new: String) -> (r: String)
    ensures
        r@ == ticked_change(old@, new@),
{
    let mut r = "`".to_owned();
    r.append(old.as_str());
    r.append("` → `");
    r.append(new.as_str());
    r.append("`");
    r
}

/// The change that an audit-log entry records, as the formatter reads it.
/// Values that only have a debug rendering arrive already rendered.
pub enum AuditChange {
    AfkChannelId { old: Option<u64>, new: Option<u64> },
    AfkTimeout { old: Option<String>, new: Option<String> },
    Allow { old: Option<u64>, new: Option<u64> },
    ApplicationId { new: Option<u64> },
    Archived { old: Option<bool>, new: Option<bool> },
    Asset { new: Option<String> },
    AutoArchiveDuration { old: Option<u64>, new: Option<u64> },
    Available { old: Option<bool>, new: Option<bool> },
    AvatarHash { old: Option<String>, new: Option<String> },
    BannerHash { old: Option<String>, new: Option<String> },
    Bitrate { old: Option<u64>, new: Option<u64> },
    ChannelId { old: Option<u64>, new: Option<u64> },
    Code { old: Option<String>, new: Option<String> },
    Color { old: Option<u32>, new: Option<u32> },
    CommunicationDisabledUntil { old: Option<i64>, new: Option<i64> },
    Deaf { old: Option<bool>, new: Option<bool> },
    DefaultAutoArchiveDuration { old: Option<u64>, new: Option<u64> },
    DefaultMessageNotifications { old: Option<String>, new: Option<String> },
    Deny { old: Option<u64>, new: Option<u64> },
    Description { old: Option<String>, new: Option<String> },
    DiscoverySplashHash { old: Option<String>, new: Option<String> },
    EnableEmoticons { old: Option<bool>, new: Option<bool> },
    EntityType { old: Option<u64>, new: Option<u64> },
    ExpireBehavior { old: Option<u64>, new: Option<u64> },
    ExpireGracePeriod { old: Option<u64>, new: Option<u64> },
    ExplicitContentFilter { old: Option<String>, new: Option<String> },
    FormatType { old: Option<String>, new: Option<String> },
    GuildId { new: Option<u64> },
    Hoist { old: Option<bool>, new: Option<bool> },
    IconHash { old: Option<String>, new: Option<String> },
    Id { new: Option<u64> },
    ImageHash { old: Option<String>, new: Option<String> },
    Invitable { old: Option<bool>, new: Option<bool> },
    InviterId { old: Option<u64>, new: Option<u64> },
    Location { old: Option<String>, new: Option<String> },
    Locked { old: Option<bool>, new: Option<bool> },
    MaxAge { old: Option<u64>, new: Option<u64> },
    MaxUses { old: Option<u64>, new: Option<u64> },
    Mentionable { old: Option<bool>, new: Option<bool> },
    MfaLevel { old: Option<String>, new: Option<String> },
    Mute { old: Option<bool>, new: Option<bool> },
    Name { old: Option<String>, new: Option<String> },
    Nick { old: Option<String>, new: Option<String> },
    Nsfw { old: Option<bool>, new: Option<bool> },
    OwnerId { old: Option<u64>, new: Option<u64> },
    PermissionOverwrites,
    Permissions { old: Option<u64>, new: Option<u64> },
    Position { old: Option<u64>, new: Option<u64> },
    PreferredLocale { old: Option<String>, new: Option<String> },
    PrivacyLevel { old: Option<u64>, new: Option<u64> },
    PruneDeleteDays { old: Option<u64>, new: Option<u64> },
    PublicUpdatesChannelId { old: Option<u64>, new: Option<u64> },
    RateLimitPerUser { old: Option<u64>, new: Option<u64> },
    Region { old: Option<String>, new: Option<String> },
    RolesAdded { new: Option<Vec<u64>> },
    RolesRemove { new: Option<Vec<u64>> },
    RulesChannelId { old: Option<u64>, new: Option<u64> },
    SplashHash { old: Option<String>, new: Option<String> },
    Status { old: Option<u64>, new: Option<u64> },
    SystemChannelId { old: Option<u64>, new: Option<u64> },
    Tags { old: Option<String>, new: Option<String> },
    Temporary { old: Option<bool>, new: Option<bool> },
    Topic { old: Option<String>, new: Option<String> },
    Type { old: Option<String>, new: Option<String> },
    UnicodeEmoji { old: Option<String>, new: Option<String> },
    UserLimit { old: Option<u64>, new: Option<u64> },
    Uses { old: Option<u64>, new: Option<u64> },
    VanityUrlCode { old: Option<String>, new: Option<String> },
    VerificationLevel { old: Option<String>, new: Option<String> },
    WidgetChannelId { old: Option<u64>, new: Option<u64> },
    WidgetEnabled { old: Option<bool>, new: Option<bool> },
    SystemChannelFlags { old: Option<u64>, new: Option<u64> },
    Other { name: String, old: Option<String>, new: Option<String> },
    Unknown,
}

/// The translation key of the label of a change, when it has a fixed label.
pub open spec fn change_key_spec(c: AuditChange) -> Option<Seq<char>> {
    match c {
        AuditChange::AfkChannelId { .. } => Some("audit_log.change.afk_channel"@),
        AuditChange::AfkTimeout { .. } => Some("audit_log.change.afk_timeout"@),
        AuditChange::Allow { .. } => Some("audit_log.change.permissions_allow"@),
        AuditChange::ApplicationId { .. } => Some("audit_log.change.application"@),
        AuditChange::Archived { .. } => Some("audit_log.change.archived"@),
        AuditChange::Asset { .. } => Some("audit_log.change.asset"@),
        AuditChange::AutoArchiveDuration { .. } => Some("audit_log.change.auto_archive_duration"@),
        AuditChange::Available { .. } => Some("audit_log.change.available"@),
        AuditChange::AvatarHash { .. } => Some("audit_log.change.avatar"@),
        AuditChange::BannerHash { .. } => Some("audit_log.change.banner"@),
        AuditChange::Bitrate { .. } => Some("audit_log.change.bitrate"@),
        AuditChange::ChannelId { .. } => Some("audit_log.change.channel"@),
        AuditChange::Code { .. } => Some("audit_log.change.invite_code"@),
        AuditChange::Color { .. } => Some("audit_log.change.color"@),
        AuditChange::CommunicationDisabledUntil { .. } => Some("audit_log.change.timeout"@),
        AuditChange::Deaf { .. } => Some("audit_log.change.deaf"@),
        AuditChange::DefaultAutoArchiveDuration { .. } => Some("audit_log.change.default_auto_archive"@),
        AuditChange::DefaultMessageNotifications { .. } => Some("audit_log.change.default_notifications"@),
        AuditChange::Deny { .. } => Some("audit_log.change.permissions_deny"@),
        AuditChange::Description { .. } => Some("audit_log.change.description"@),
        AuditChange::DiscoverySplashHash { .. } => Some("audit_log.change.discovery_splash"@),
        AuditChange::EnableEmoticons { .. } => Some("audit_log.change.enable_emoticons"@),
        AuditChange::EntityType { .. } => Some("audit_log.change.entity_type"@),
        AuditChange::ExpireBehavior { .. } => Some("audit_log.change.expire_behavior"@),
        AuditChange::ExpireGracePeriod { .. } => Some("audit_log.change.expire_grace_period"@),
        AuditChange::ExplicitContentFilter { .. } => Some("audit_log.change.explicit_content_filter"@),
        AuditChange::FormatType { .. } => Some("audit_log.change.format_type"@),
        AuditChange::GuildId { .. } => Some("audit_log.change.guild"@),
        AuditChange::Hoist { .. } => Some("audit_log.change.hoist"@),
        AuditChange::IconHash { .. } => Some("audit_log.change.icon"@),
        AuditChange::Id { .. } => Some("audit_log.change.id"@),
        AuditChange::ImageHash { .. } => Some("audit_log.change.image"@),
        AuditChange::Invitable { .. } => Some("audit_log.change.invitable"@),
        AuditChange::InviterId { .. } => Some("audit_log.change.inviter"@),
        AuditChange::Location { .. } => Some("audit_log.change.location"@),
        AuditChange::Locked { .. } => Some("audit_log.change.locked"@),
        AuditChange::MaxAge { .. } => Some("audit_log.change.max_age"@),
        AuditChange::MaxUses { .. } => Some("audit_log.change.max_uses"@),
        AuditChange::Mentionable { .. } => Some("audit_log.change.mentionable"@),
        AuditChange::MfaLevel { .. } => Some("audit_log.change.mfa_level"@),
        AuditChange::Mute { .. } => Some("audit_log.change.mute"@),
        AuditChange::Name { .. } => Some("audit_log.change.name"@),
        AuditChange::Nick { .. } => Some("audit_log.change.nickname"@),
        AuditChange::Nsfw { .. } => Some("audit_log.change.nsfw"@),
        AuditChange::OwnerId { .. } => Some("audit_log.change.owner"@),
        AuditChange::PermissionOverwrites { .. } => Some("audit_log.change.permission_overwrites"@),
        AuditChange::Permissions { .. } => Some("audit_log.change.permissions"@),
        AuditChange::Position { .. } => Some("audit_log.change.position"@),
        AuditChange::PreferredLocale { .. } => Some("audit_log.change.preferred_locale"@),
        AuditChange::PrivacyLevel { .. } => Some("audit_log.change.privacy_level"@),
        AuditChange::PruneDeleteDays { .. } => Some("audit_log.change.prune_delete_days"@),
        AuditChange::PublicUpdatesChannelId { .. } => Some("audit_log.change.public_updates_channel"@),
        AuditChange::RateLimitPerUser { .. } => Some("audit_log.change.slowmode"@),
        AuditChange::Region { .. } => Some("audit_log.change.region"@),
        AuditChange::RolesAdded { .. } => Some("audit_log.change.roles_added"@),
        AuditChange::RolesRemove { .. } => Some("audit_log.change.roles_removed"@),
        AuditChange::RulesChannelId { .. } => Some("audit_log.change.rules_channel"@),
        AuditChange::SplashHash { .. } => Some("audit_log.change.splash"@),
        AuditChange::Status { .. } => Some("audit_log.change.status"@),
        AuditChange::SystemChannelId { .. } => Some("audit_log.change.system_channel"@),
        AuditChange::Tags { .. } => Some("audit_log.change.tags"@),
        AuditChange::Temporary { .. } => Some("audit_log.change.temporary"@),
        AuditChange::Topic { .. } => Some("audit_log.change.topic"@),
        AuditChange::Type { .. } => Some("audit_log.change.type"@),
        AuditChange::UnicodeEmoji { .. } => Some("audit_log.change.unicode_emoji"@),
        AuditChange::UserLimit { .. } => Some("audit_log.change.user_limit"@),
        AuditChange::Uses { .. } => Some("audit_log.change.uses"@),
        AuditChange::VanityUrlCode { .. } => Some("audit_log.change.vanity_url"@),
        AuditChange::VerificationLevel { .. } => Some("audit_log.change.verification_level"@),
        AuditChange::WidgetChannelId { .. } => Some("audit_log.change.widget_channel"@),
        AuditChange::WidgetEnabled { .. } => Some("audit_log.change.widget_enabled"@),
        AuditChange::SystemChannelFlags { .. } => Some("audit_log.change.system_channel_flags"@),
        AuditChange::Other { .. } => None,
        AuditChange::Unknown => None,
    }
}

/// The translation key of the label of a change, when it has a fixed label.
pub fn change_key(c: &AuditChange) -> (r: Option<&'static str>)
    ensures
        match r {
            Some(k) => change_key_spec(*c) == Some(k@),
            None => change_key_spec(*c) is None,
        },
{
    match c {
        AuditChange::AfkChannelId { .. } => Some("audit_log.change.afk_channel"),
        AuditChange::AfkTimeout { .. } => Some("audit_log.change.afk_timeout"),
        AuditChange::Allow { .. } => Some("audit_log.change.permissions_allow"),
        AuditChange::ApplicationId { .. } => Some("audit_log.change.application"),
        AuditChange::Archived { .. } => Some("audit_log.change.archived"),
        AuditChange::Asset { .. } => Some("audit_log.change.asset"),
        AuditChange::AutoArchiveDuration { .. } => Some("audit_log.change.auto_archive_duration"),
        AuditChange::Available { .. } => Some("audit_log.change.available"),
        AuditChange::AvatarHash { .. } => Some("audit_log.change.avatar"),
        AuditChange::BannerHash { .. } => Some("audit_log.change.banner"),
        AuditChange::Bitrate { .. } => Some("audit_log.change.bitrate"),
        AuditChange::ChannelId { .. } => Some("audit_log.change.channel"),
        AuditChange::Code { .. } => Some("audit_log.change.invite_code"),
        AuditChange::Color { .. } => Some("audit_log.change.color"),
        AuditChange::CommunicationDisabledUntil { .. } => Some("audit_log.change.timeout"),
        AuditChange::Deaf { .. } => Some("audit_log.change.deaf"),
        AuditChange::DefaultAutoArchiveDuration { .. } => Some("audit_log.change.default_auto_archive"),
        AuditChange::DefaultMessageNotifications { .. } => Some("audit_log.change.default_notifications"),
        AuditChange::Deny { .. } => Some("audit_log.change.permissions_deny"),
        AuditChange::Description { .. } => Some("audit_log.change.description"),
        AuditChange::DiscoverySplashHash { .. } => Some("audit_log.change.discovery_splash"),
        AuditChange::EnableEmoticons { .. } => Some("audit_log.change.enable_emoticons"),
        AuditChange::EntityType { .. } => Some("audit_log.change.entity_type"),
        AuditChange::ExpireBehavior { .. } => Some("audit_log.change.expire_behavior"),
        AuditChange::ExpireGracePeriod { .. } => Some("audit_log.change.expire_grace_period"),
        AuditChange::ExplicitContentFilter { .. } => Some("audit_log.change.explicit_content_filter"),
        AuditChange::FormatType { .. } => Some("audit_log.change.format_type"),
        AuditChange::GuildId { .. } => Some("audit_log.change.guild"),
        AuditChange::Hoist { .. } => Some("audit_log.change.hoist"),
        AuditChange::IconHash { .. } => Some("audit_log.change.icon"),
        AuditChange::Id { .. } => Some("audit_log.change.id"),
        AuditChange::ImageHash { .. } => Some("audit_log.change.image"),
        AuditChange::Invitable { .. } => Some("audit_log.change.invitable"),
        AuditChange::InviterId { .. } => Some("audit_log.change.inviter"),
        AuditChange::Location { .. } => Some("audit_log.change.location"),
        AuditChange::Locked { .. } => Some("audit_log.change.locked"),
        AuditChange::MaxAge { .. } => Some("audit_log.change.max_age"),
        AuditChange::MaxUses { .. } => Some("audit_log.change.max_uses"),
        AuditChange::Mentionable { .. } => Some("audit_log.change.mentionable"),
        AuditChange::MfaLevel { .. } => Some("audit_log.change.mfa_level"),
        AuditChange::Mute { .. } => Some("audit_log.change.mute"),
        AuditChange::Name { .. } => Some("audit_log.change.name"),
        AuditChange::Nick { .. } => Some("audit_log.change.nickname"),
        AuditChange::Nsfw { .. } => Some("audit_log.change.nsfw"),
        AuditChange::OwnerId { .. } => Some("audit_log.change.owner"),
        AuditChange::PermissionOverwrites { .. } => Some("audit_log.change.permission_overwrites"),
        AuditChange::Permissions { .. } => Some("audit_log.change.permissions"),
        AuditChange::Position { .. } => Some("audit_log.change.position"),
        AuditChange::PreferredLocale { .. } => Some("audit_log.change.preferred_locale"),
        AuditChange::PrivacyLevel { .. } => Some("audit_log.change.privacy_level"),
        AuditChange::PruneDeleteDays { .. } => Some("audit_log.change.prune_delete_days"),
        AuditChange::PublicUpdatesChannelId { .. } => Some("audit_log.change.public_updates_channel"),
        AuditChange::RateLimitPerUser { .. } => Some("audit_log.change.slowmode"),
        AuditChange::Region { .. } => Some("audit_log.change.region"),
        AuditChange::RolesAdded { .. } => Some("audit_log.change.roles_added"),
        AuditChange::RolesRemove { .. } => Some("audit_log.change.roles_removed"),
        AuditChange::RulesChannelId { .. } => Some("audit_log.change.rules_channel"),
        AuditChange::SplashHash { .. } => Some("audit_log.change.splash"),
        AuditChange::Status { .. } => Some("audit_log.change.status"),
        AuditChange::SystemChannelId { .. } => Some("audit_log.change.system_channel"),
        AuditChange::Tags { .. } => Some("audit_log.change.tags"),
        AuditChange::Temporary { .. } => Some("audit_log.change.temporary"),
        AuditChange::Topic { .. } => Some("audit_log.change.topic"),
        AuditChange::Type { .. } => Some("audit_log.change.type"),
        AuditChange::UnicodeEmoji { .. } => Some("audit_log.change.unicode_emoji"),
        AuditChange::UserLimit { .. } => Some("audit_log.change.user_limit"),
        AuditChange::Uses { .. } => Some("audit_log.change.uses"),
        AuditChange::VanityUrlCode { .. } => Some("audit_log.change.vanity_url"),
        AuditChange::VerificationLevel { .. } => Some("audit_log.change.verification_level"),
        AuditChange::WidgetChannelId { .. } => Some("audit_log.change.widget_channel"),
        AuditChange::WidgetEnabled { .. } => Some("audit_log.change.widget_enabled"),
        AuditChange::SystemChannelFlags { .. } => Some("audit_log.change.system_channel_flags"),
        AuditChange::Other { .. } => None,
        AuditChange::Unknown => None,
    }
}

/// Whether the texts that the formatter cuts to a hundred bytes can be cut there.
pub open spec fn cuttable(c: AuditChange) -> bool {
    match c {
        AuditChange::Description { old, new } => cut_ok(opt_view(old)) && cut_ok(opt_view(new)),
        AuditChange::Topic { old, new } => cut_ok(opt_view(old)) && cut_ok(opt_view(new)),
        _ => true,
    }
}

/// The field that shows change `c` under the label `name`, or `None` when the
/// change is not shown.  An `Other` change is labelled with its own name.
pub open spec fn change_field(c: AuditChange, name: Seq<char>) -> Option<FieldView> {
    match c {
        AuditChange::AfkChannelId { old, new } => Some(
            FieldView {
                name,
                value: plain_change(channel_text(old), channel_text(new)),
                inline: true,
            },
        ),
        AuditChange::AfkTimeout { old, new } => Some(
            FieldView {
                name,
                value: plain_change(text_or_none(opt_view(old)), text_or_none(opt_view(new))),
                inline: true,
            },
        ),
        AuditChange::Allow { old, new } => Some(
            FieldView {
                name,
                value: ticked_change(bits_text(old), bits_text(new)),
                inline: true,
            },
        ),
        AuditChange::ApplicationId { new } => Some(FieldView { name, value: number_text(new), inline: true }),
        AuditChange::Archived { old, new } => Some(
            FieldView {
                name,
                value: plain_change(bool_text(old), bool_text(new)),
                inline: true,
            },
        ),
        AuditChange::Asset { new } => Some(FieldView { name, value: text_or_none(opt_view(new)), inline: true }),
        AuditChange::AutoArchiveDuration { old, new } => Some(
            FieldView {
                name,
                value: plain_change(number_text(old), number_text(new)),
                inline: true,
            },
        ),
        AuditChange::Available { old, new } => Some(
            FieldView {
                name,
                value: plain_change(bool_text(old), bool_text(new)),
                inline: true,
            },
        ),
        AuditChange::AvatarHash { old, new } => Some(
            FieldView {
                name,
                value: ticked_change(text_or_none(opt_view(old)), text_or_none(opt_view(new))),
                inline: true,
            },
        ),
        AuditChange::BannerHash { old, new } => Some(
            FieldView {
                name,
                value: ticked_change(text_or_none(opt_view(old)), text_or_none(opt_view(new))),
                inline: true,
            },
        ),
        AuditChange::Bitrate { old, new } => Some(
            FieldView {
                name,
                value: plain_change(kbps_text(old), kbps_text(new)),
                inline: true,
            },
        ),
        AuditChange::ChannelId { old, new } => Some(
            FieldView {
                name,
                value: plain_change(channel_text(old), channel_text(new)),
                inline: true,
            },
        ),
        AuditChange::Code { old, new } => Some(
            FieldView {
                name,
                value: ticked_change(text_or_none(opt_view(old)), text_or_none(opt_view(new))),
                inline: true,
            },
        ),
        AuditChange::Color { old, new } => Some(
            FieldView {
                name,
                value: plain_change(color_text(old), color_text(new)),
                inline: true,
            },
        ),
        AuditChange::CommunicationDisabledUntil { old, new } => Some(
            FieldView {
                name,
                value: plain_change(timestamp_text(old), timestamp_text(new)),
                inline: true,
            },
        ),
        AuditChange::Deaf { old, new } => Some(
            FieldView {
                name,
                value: plain_change(bool_text(old), bool_text(new)),
                inline: true,
            },
        ),
        AuditChange::DefaultAutoArchiveDuration { old, new } => Some(
            FieldView {
                name,
                value: plain_change(number_text(old), number_text(new)),
                inline: true,
            },
        ),
        AuditChange::DefaultMessageNotifications { old, new } => Some(
            FieldView {
                name,
                value: plain_change(text_or_none(opt_view(old)), text_or_none(opt_view(new))),
                inline: true,
            },
        ),
        AuditChange::Deny { old, new } => Some(
            FieldView {
                name,
                value: ticked_change(bits_text(old), bits_text(new)),
                inline: true,
            },
        ),
        AuditChange::Description { old, new } => Some(
            FieldView {
                name,
                value: ticked_change(truncated_text(opt_view(old)), truncated_text(opt_view(new))),
                inline: false,
            },
        ),
        AuditChange::DiscoverySplashHash { old, new } => Some(
            FieldView {
                name,
                value: ticked_change(text_or_none(opt_view(old)), text_or_none(opt_view(new))),
                inline: true,
            },
        ),
        AuditChange::EnableEmoticons { old, new } => Some(
            FieldView {
                name,
                value: plain_change(bool_text(old), bool_text(new)),
                inline: true,
            },
        ),
        AuditChange::EntityType { old, new } => Some(
            FieldView {
                name,
                value: plain_change(number_text(old), number_text(new)),
                inline: true,
            },
        ),
        AuditChange::ExpireBehavior { old, new } => Some(
            FieldView {
                name,
                value: plain_change(number_text(old), number_text(new)),
                inline: true,
            },
        ),
        AuditChange::ExpireGracePeriod { old, new } => Some(
            FieldView {
                name,
                value: plain_change(days_text(old), days_text(new)),
                inline: true,
            },
        ),
        AuditChange::ExplicitContentFilter { old, new } => Some(
            FieldView {
                name,
                value: plain_change(text_or_none(opt_view(old)), text_or_none(opt_view(new))),
                inline: true,
            },
        ),
        AuditChange::FormatType { old, new } => Some(
            FieldView {
                name,
                value: plain_change(text_or_none(opt_view(old)), text_or_none(opt_view(new))),
                inline: true,
            },
        ),
        AuditChange::GuildId { new } => Some(FieldView { name, value: number_text(new), inline: true }),
        AuditChange::Hoist { old, new } => Some(
            FieldView {
                name,
                value: plain_change(bool_text(old), bool_text(new)),
                inline: true,
            },
        ),
        AuditChange::IconHash { old, new } => Some(
            FieldView {
                name,
                value: ticked_change(text_or_none(opt_view(old)), text_or_none(opt_view(new))),
                inline: true,
            },
        ),
        AuditChange::Id { new } => Some(FieldView { name, value: number_text(new), inline: true }),
        AuditChange::ImageHash { old, new } => Some(
            FieldView {
                name,
                value: ticked_change(text_or_none(opt_view(old)), text_or_none(opt_view(new))),
                inline: true,
            },
        ),
        AuditChange::Invitable { old, new } => Some(
            FieldView {
                name,
                value: plain_change(bool_text(old), bool_text(new)),
                inline: true,
            },
        ),
        AuditChange::InviterId { old, new } => Some(
            FieldView {
                name,
                value: plain_change(user_text(old), user_text(new)),
                inline: true,
            },
        ),
        AuditChange::Location { old, new } => Some(
            FieldView {
                name,
                value: ticked_change(text_or_none(opt_view(old)), text_or_none(opt_view(new))),
                inline: true,
            },
        ),
        AuditChange::Locked { old, new } => Some(
            FieldView {
                name,
                value: plain_change(bool_text(old), bool_text(new)),
                inline: true,
            },
        ),
        AuditChange::MaxAge { old, new } => Some(
            FieldView {
                name,
                value: plain_change(never_text(old), never_text(new)),
                inline: true,
            },
        ),
        AuditChange::MaxUses { old, new } => Some(
            FieldView {
                name,
                value: plain_change(unlimited_text(old), unlimited_text(new)),
                inline: true,
            },
        ),
        AuditChange::Mentionable { old, new } => Some(
            FieldView {
                name,
                value: plain_change(bool_text(old), bool_text(new)),
                inline: true,
            },
        ),
        AuditChange::MfaLevel { old, new } => Some(
            FieldView {
                name,
                value: plain_change(text_or_none(opt_view(old)), text_or_none(opt_view(new))),
                inline: true,
            },
        ),
        AuditChange::Mute { old, new } => Some(
            FieldView {
                name,
                value: plain_change(bool_text(old), bool_text(new)),
                inline: true,
            },
        ),
        AuditChange::Name { old, new } => Some(
            FieldView {
                name,
                value: ticked_change(text_or_none(opt_view(old)), text_or_none(opt_view(new))),
                inline: true,
            },
        ),
        AuditChange::Nick { old, new } => Some(
            FieldView {
                name,
                value: ticked_change(text_or_none(opt_view(old)), text_or_none(opt_view(new))),
                inline: true,
            },
        ),
        AuditChange::Nsfw { old, new } => Some(
            FieldView {
                name,
                value: plain_change(bool_text(old), bool_text(new)),
                inline: true,
            },
        ),
        AuditChange::OwnerId { old, new } => Some(
            FieldView {
                name,
                value: plain_change(user_text(old), user_text(new)),
                inline: true,
            },
        ),
        AuditChange::PermissionOverwrites => Some(FieldView { name, value: "Modified"@, inline: true }),
        AuditChange::Permissions { old, new } => Some(
            FieldView {
                name,
                value: ticked_change(bits_text(old), bits_text(new)),
                inline: true,
            },
        ),
        AuditChange::Position { old, new } => Some(
            FieldView {
                name,
                value: plain_change(number_text(old), number_text(new)),
                inline: true,
            },
        ),
        AuditChange::PreferredLocale { old, new } => Some(
            FieldView {
                name,
                value: ticked_change(text_or_none(opt_view(old)), text_or_none(opt_view(new))),
                inline: true,
            },
        ),
        AuditChange::PrivacyLevel { old, new } => Some(
            FieldView {
                name,
                value: plain_change(number_text(old), number_text(new)),
                inline: true,
            },
        ),
        AuditChange::PruneDeleteDays { old, new } => Some(
            FieldView {
                name,
                value: plain_change(days_text(old), days_text(new)),
                inline: true,
            },
        ),
        AuditChange::PublicUpdatesChannelId { old, new } => Some(
            FieldView {
                name,
                value: plain_change(channel_text(old), channel_text(new)),
                inline: true,
            },
        ),
        AuditChange::RateLimitPerUser { old, new } => Some(
            FieldView {
                name,
                value: plain_change(off_text(old), off_text(new)),
                inline: true,
            },
        ),
        AuditChange::Region { old, new } => Some(
            FieldView {
                name,
                value: ticked_change(text_or_none(opt_view(old)), text_or_none(opt_view(new))),
                inline: true,
            },
        ),
        AuditChange::RolesAdded { new } => match new {
            Some(ids) => Some(FieldView { name, value: roles_text(ids@), inline: false }),
            None => None,
        },
        AuditChange::RolesRemove { new } => match new {
            Some(ids) => Some(FieldView { name, value: roles_text(ids@), inline: false }),
            None => None,
        },
        AuditChange::RulesChannelId { old, new } => Some(
            FieldView {
                name,
                value: plain_change(channel_text(old), channel_text(new)),
                inline: true,
            },
        ),
        AuditChange::SplashHash { old, new } => Some(
            FieldView {
                name,
                value: ticked_change(text_or_none(opt_view(old)), text_or_none(opt_view(new))),
                inline: true,
            },
        ),
        AuditChange::Status { old, new } => Some(
            FieldView {
                name,
                value: plain_change(number_text(old), number_text(new)),
                inline: true,
            },
        ),
        AuditChange::SystemChannelId { old, new } => Some(
            FieldView {
                name,
                value: plain_change(channel_text(old), channel_text(new)),
                inline: true,
            },
        ),
        AuditChange::Tags { old, new } => Some(
            FieldView {
                name,
                value: ticked_change(text_or_none(opt_view(old)), text_or_none(opt_view(new))),
                inline: true,
            },
        ),
        AuditChange::Temporary { old, new } => Some(
            FieldView {
                name,
                value: plain_change(bool_text(old), bool_text(new)),
                inline: true,
            },
        ),
        AuditChange::Topic { old, new } => Some(
            FieldView {
                name,
                value: ticked_change(truncated_text(opt_view(old)), truncated_text(opt_view(new))),
                inline: false,
            },
        ),
        AuditChange::Type { old, new } => Some(
            FieldView {
                name,
                value: plain_change(text_or_none(opt_view(old)), text_or_none(opt_view(new))),
                inline: true,
            },
        ),
        AuditChange::UnicodeEmoji { old, new } => Some(
            FieldView {
                name,
                value: plain_change(text_or_none(opt_view(old)), text_or_none(opt_view(new))),
                inline: true,
            },
        ),
        AuditChange::UserLimit { old, new } => Some(
            FieldView {
                name,
                value: plain_change(unlimited_text(old), unlimited_text(new)),
                inline: true,
            },
        ),
        AuditChange::Uses { old, new } => Some(
            FieldView {
                name,
                value: plain_change(number_text(old), number_text(new)),
                inline: true,
            },
        ),
        AuditChange::VanityUrlCode { old, new } => Some(
            FieldView {
                name,
                value: ticked_change(text_or_none(opt_view(old)), text_or_none(opt_view(new))),
                inline: true,
            },
        ),
        AuditChange::VerificationLevel { old, new } => Some(
            FieldView {
                name,
                value: plain_change(text_or_none(opt_view(old)), text_or_none(opt_view(new))),
                inline: true,
            },
        ),
        AuditChange::WidgetChannelId { old, new } => Some(
            FieldView {
                name,
                value: plain_change(channel_text(old), channel_text(new)),
                inline: true,
            },
        ),
        AuditChange::WidgetEnabled { old, new } => Some(
            FieldView {
                name,
                value: plain_change(bool_text(old), bool_text(new)),
                inline: true,
            },
        ),
        AuditChange::SystemChannelFlags { old, new } => Some(
            FieldView {
                name,
                value: ticked_change(number_text(old), number_text(new)),
                inline: true,
            },
        ),
        AuditChange::Other { name: own, old, new } => Some(
            FieldView {
                name: own@,
                value: ticked_change(text_or_none(opt_view(old)), text_or_none(opt_view(new))),
                inline: true,
            },
        ),
        AuditChange::Unknown => None,
    }
}

/// The embed field that shows `change`; `name` is the translated label of
/// `change_key(change)` (an `Other` change carries its own label).
pub fn format_change_value(change: &AuditChange, name: String) -> (r: Option<EmbedField>)
    requires
        cuttable(*change),
    ensures
        match r {
            Some(f) => change_field(*change, name@) == Some(f@),
            None => change_field(*change, name@) is None,
        },
{
    match change {
        AuditChange::AfkChannelId { old, new } => Some(
            EmbedField::new(name, join_plain(render_channel(*old), render_channel(*new)), true),
        ),
        AuditChange::AfkTimeout { old, new } => Some(
            EmbedField::new(name, join_plain(render_text(old), render_text(new)), true),
        ),
        AuditChange::Allow { old, new } => Some(
            EmbedField::new(name, join_ticked(render_bits(*old), render_bits(*new)), true),
        ),
        AuditChange::ApplicationId { new } => Some(EmbedField::new(name, render_number(*new), true)),
        AuditChange::Archived { old, new } => Some(
            EmbedField::new(name, join_plain(render_bool(*old), render_bool(*new)), true),
        ),
        AuditChange::Asset { new } => Some(EmbedField::new(name, render_text(new), true)),
        AuditChange::AutoArchiveDuration { old, new } => Some(
            EmbedField::new(name, join_plain(render_number(*old), render_number(*new)), true),
        ),
        AuditChange::Available { old, new } => Some(
            EmbedField::new(name, join_plain(render_bool(*old), render_bool(*new)), true),
        ),
        AuditChange::AvatarHash { old, new } => Some(
            EmbedField::new(name, join_ticked(render_text(old), render_text(new)), true),
        ),
        AuditChange::BannerHash { old, new } => Some(
            EmbedField::new(name, join_ticked(render_text(old), render_text(new)), true),
        ),
        AuditChange::Bitrate { old, new } => Some(
            EmbedField::new(name, join_plain(render_kbps(*old), render_kbps(*new)), true),
        ),
        AuditChange::ChannelId { old, new } => Some(
            EmbedField::new(name, join_plain(render_channel(*old), render_channel(*new)), true),
        ),
        AuditChange::Code { old, new } => Some(
            EmbedField::new(name, join_ticked(render_text(old), render_text(new)), true),
        ),
        AuditChange::Color { old, new } => Some(
            EmbedField::new(name, join_plain(render_color(*old), render_color(*new)), true),
        ),
        AuditChange::CommunicationDisabledUntil { old, new } => Some(
            EmbedField::new(name, join_plain(render_timestamp(*old), render_timestamp(*new)), true),
        ),
        AuditChange::Deaf { old, new } => Some(
            EmbedField::new(name, join_plain(render_bool(*old), render_bool(*new)), true),
        ),
        AuditChange::DefaultAutoArchiveDuration { old, new } => Some(
            EmbedField::new(name, join_plain(render_number(*old), render_number(*new)), true),
        ),
        AuditChange::DefaultMessageNotifications { old, new } => Some(
            EmbedField::new(name, join_plain(render_text(old), render_text(new)), true),
        ),
        AuditChange::Deny { old, new } => Some(
            EmbedField::new(name, join_ticked(render_bits(*old), render_bits(*new)), true),
        ),
        AuditChange::Description { old, new } => Some(
            EmbedField::new(name, join_ticked(render_truncated(old), render_truncated(new)), false),
        ),
        AuditChange::DiscoverySplashHash { old, new } => Some(
            EmbedField::new(name, join_ticked(render_text(old), render_text(new)), true),
        ),
        AuditChange::EnableEmoticons { old, new } => Some(
            EmbedField::new(name, join_plain(render_bool(*old), render_bool(*new)), true),
        ),
        AuditChange::EntityType { old, new } => Some(
            EmbedField::new(name, join_plain(render_number(*old), render_number(*new)), true),
        ),
        AuditChange::ExpireBehavior { old, new } => Some(
            EmbedField::new(name, join_plain(render_number(*old), render_number(*new)), true),
        ),
        AuditChange::ExpireGracePeriod { old, new } => Some(
            EmbedField::new(name, join_plain(render_days(*old), render_days(*new)), true),
        ),
        AuditChange::ExplicitContentFilter { old, new } => Some(
            EmbedField::new(name, join_plain(render_text(old), render_text(new)), true),
        ),
        AuditChange::FormatType { old, new } => Some(
            EmbedField::new(name, join_plain(render_text(old), render_text(new)), true),
        ),
        AuditChange::GuildId { new } => Some(EmbedField::new(name, render_number(*new), true)),
        AuditChange::Hoist { old, new } => Some(
            EmbedField::new(name, join_plain(render_bool(*old), render_bool(*new)), true),
        ),
        AuditChange::IconHash { old, new } => Some(
            EmbedField::new(name, join_ticked(render_text(old), render_text(new)), true),
        ),
        AuditChange::Id { new } => Some(EmbedField::new(name, render_number(*new), true)),
        AuditChange::ImageHash { old, new } => Some(
            EmbedField::new(name, join_ticked(render_text(old), render_text(new)), true),
        ),
        AuditChange::Invitable { old, new } => Some(
            EmbedField::new(name, join_plain(render_bool(*old), render_bool(*new)), true),
        ),
        AuditChange::InviterId { old, new } => Some(
            EmbedField::new(name, join_plain(render_user(*old), render_user(*new)), true),
        ),
        AuditChange::Location { old, new } => Some(
            EmbedField::new(name, join_ticked(render_text(old), render_text(new)), true),
        ),
        AuditChange::Locked { old, new } => Some(
            EmbedField::new(name, join_plain(render_bool(*old), render_bool(*new)), true),
        ),
        AuditChange::MaxAge { old, new } => Some(
            EmbedField::new(name, join_plain(render_never(*old), render_never(*new)), true),
        ),
        AuditChange::MaxUses { old, new } => Some(
            EmbedField::new(name, join_plain(render_unlimited(*old), render_unlimited(*new)), true),
        ),
        AuditChange::Mentionable { old, new } => Some(
            EmbedField::new(name, join_plain(render_bool(*old), render_bool(*new)), true),
        ),
        AuditChange::MfaLevel { old, new } => Some(
            EmbedField::new(name, join_plain(render_text(old), render_text(new)), true),
        ),
        AuditChange::Mute { old, new } => Some(
            EmbedField::new(name, join_plain(render_bool(*old), render_bool(*new)), true),
        ),
        AuditChange::Name { old, new } => Some(
            EmbedField::new(name, join_ticked(render_text(old), render_text(new)), true),
        ),
        AuditChange::Nick { old, new } => Some(
            EmbedField::new(name, join_ticked(render_text(old), render_text(new)), true),
        ),
        AuditChange::Nsfw { old, new } => Some(
            EmbedField::new(name, join_plain(render_bool(*old), render_bool(*new)), true),
        ),
        AuditChange::OwnerId { old, new } => Some(
            EmbedField::new(name, join_plain(render_user(*old), render_user(*new)), true),
        ),
        AuditChange::PermissionOverwrites => Some(EmbedField::new(name, "Modified".to_owned(), true)),
        AuditChange::Permissions { old, new } => Some(
            EmbedField::new(name, join_ticked(render_bits(*old), render_bits(*new)), true),
        ),
        AuditChange::Position { old, new } => Some(
            EmbedField::new(name, join_plain(render_number(*old), render_number(*new)), true),
        ),
        AuditChange::PreferredLocale { old, new } => Some(
            EmbedField::new(name, join_ticked(render_text(old), render_text(new)), true),
        ),
        AuditChange::PrivacyLevel { old, new } => Some(
            EmbedField::new(name, join_plain(render_number(*old), render_number(*new)), true),
        ),
        AuditChange::PruneDeleteDays { old, new } => Some(
            EmbedField::new(name, join_plain(render_days(*old), render_days(*new)), true),
        ),
        AuditChange::PublicUpdatesChannelId { old, new } => Some(
            EmbedField::new(name, join_plain(render_channel(*old), render_channel(*new)), true),
        ),
        AuditChange::RateLimitPerUser { old, new } => Some(
            EmbedField::new(name, join_plain(render_off(*old), render_off(*new)), true),
        ),
        AuditChange::Region { old, new } => Some(
            EmbedField::new(name, join_ticked(render_text(old), render_text(new)), true),
        ),
        AuditChange::RolesAdded { new } => match new {
            Some(ids) => Some(EmbedField::new(name, render_roles(ids), false)),
            None => None,
        },
        AuditChange::RolesRemove { new } => match new {
            Some(ids) => Some(EmbedField::new(name, render_roles(ids), false)),
            None => None,
        },
        AuditChange::RulesChannelId { old, new } => Some(
            EmbedField::new(name, join_plain(render_channel(*old), render_channel(*new)), true),
        ),
        AuditChange::SplashHash { old, new } => Some(
            EmbedField::new(name, join_ticked(render_text(old), render_text(new)), true),
        ),
        AuditChange::Status { old, new } => Some(
            EmbedField::new(name, join_plain(render_number(*old), render_number(*new)), true),
        ),
        AuditChange::SystemChannelId { old, new } => Some(
            EmbedField::new(name, join_plain(render_channel(*old), render_channel(*new)), true),
        ),
        AuditChange::Tags { old, new } => Some(
            EmbedField::new(name, join_ticked(render_text(old), render_text(new)), true),
        ),
        AuditChange::Temporary { old, new } => Some(
            EmbedField::new(name, join_plain(render_bool(*old), render_bool(*new)), true),
        ),
        AuditChange::Topic { old, new } => Some(
            EmbedField::new(name, join_ticked(render_truncated(old), render_truncated(new)), false),
        ),
        AuditChange::Type { old, new } => Some(
            EmbedField::new(name, join_plain(render_text(old), render_text(new)), true),
        ),
        AuditChange::UnicodeEmoji { old, new } => Some(
            EmbedField::new(name, join_plain(render_text(old), render_text(new)), true),
        ),
        AuditChange::UserLimit { old, new } => Some(
            EmbedField::new(name, join_plain(render_unlimited(*old), render_unlimited(*new)), true),
        ),
        AuditChange::Uses { old, new } => Some(
            EmbedField::new(name, join_plain(render_number(*old), render_number(*new)), true),
        ),
        AuditChange::VanityUrlCode { old, new } => Some(
            EmbedField::new(name, join_ticked(render_text(old), render_text(new)), true),
        ),
        AuditChange::VerificationLevel { old, new } => Some(
            EmbedField::new(name, join_plain(render_text(old), render_text(new)), true),
        ),
        AuditChange::WidgetChannelId { old, new } => Some(
            EmbedField::new(name, join_plain(render_channel(*old), render_channel(*new)), true),
        ),
        AuditChange::WidgetEnabled { old, new } => Some(
            EmbedField::new(name, join_plain(render_bool(*old), render_bool(*new)), true),
        ),
        AuditChange::SystemChannelFlags { old, new } => Some(
            EmbedField::new(name, join_ticked(render_number(*old), render_number(*new)), true),
        ),
        AuditChange::Other { name: own, old, new } => Some(
            EmbedField::new(own.clone(), join_ticked(render_text(old), render_text(new)), true),
        ),
        AuditChange::Unknown => None,
    }
}

/// The fields of a list of changes: the shown ones, in order.
pub open spec fn change_fields(changes: Seq<AuditChange>, names: Seq<Seq<char>>) -> Seq<FieldView>
    decreases changes.len(),
{
    if changes.len() == 0 {
        Seq::empty()
    } else {
        let rest = change_fields(changes.drop_last(), names);
        match change_field(changes.last(), names[changes.len() - 1]) {
            Some(f) => rest.push(f),
            None => rest,
        }
    }
}

/// The fields of the changes of an entry; `names[i]` labels `changes[i]`.
pub fn format_changes(changes: &Vec<AuditChange>, names: &Vec<String>) -> (r: Vec<EmbedField>)
    requires
        names.len() == changes.len(),
        forall|i: int| 0 <= i < changes.len() ==> cuttable(#[trigger] changes@[i]),
    ensures
        r@.map_values(|f: EmbedField| f@) == change_fields(
            changes@,
            names@.map_values(|s: String| s@),
        ),
{
    let ghost labels = names@.map_values(|s: String| s@);
    let mut r: Vec<EmbedField> = Vec::new();
    let mut i: usize = 0;
    assert(changes@.take(0) =~= Seq::<AuditChange>::empty());
    while i < changes.len()
        invariant
            i <= changes.len(),
            names.len() == changes.len(),
            labels == names@.map_values(|s: String| s@),
            forall|k: int| 0 <= k < changes.len() ==> cuttable(#[trigger] changes@[k]),
            r@.map_values(|f: EmbedField| f@) == change_fields(changes@.take(i as int), labels),
        decreases changes.len() - i,
    {
        let ghost before = r@;
        let ghost prefix = changes@.take(i + 1);
        assert(prefix.drop_last() =~= changes@.take(i as int));
        assert(prefix.last() == changes@[i as int]);
        assert(labels[i as int] == names@[i as int]@);
        match format_change_value(&changes[i], names[i].clone()) {
            Some(f) => {
                r.push(f);
                assert(r@.map_values(|f: EmbedField| f@) =~= before.map_values(
                    |f: EmbedField| f@,
                ).push(r@.last()@));
            },
            None => {},
        }
        i = i + 1;
    }
    assert(changes@.take(changes.len() as int) =~= changes@);
    r
}

/// Every change that has an old and a new value is shown as the old value's
/// text, then an arrow, then the new value's text: the part before the arrow
/// comes from `old` alone and the part after it from `new` alone. Plain
/// changes read `old → new`; identifiers, hashes and texts read
/// `` `old` → `new` ``. A change the formatter does not know by name is shown
/// the same way under its own name.
pub proof fn lemma_change_value_old_then_new(c: AuditChange, name: Seq<char>)
    ensures
        match c {
            AuditChange::AfkChannelId { old, new } => change_field(c, name) == Some(
                FieldView { name, value: channel_text(old) + " → "@ + channel_text(new), inline: true },
            ),
            AuditChange::AfkTimeout { old, new } => change_field(c, name) == Some(
                FieldView { name, value: text_or_none(opt_view(old)) + " → "@ + text_or_none(opt_view(new)), inline: true },
            ),
            AuditChange::Allow { old, new } => change_field(c, name) == Some(
                FieldView { name, value: "`"@ + bits_text(old) + "` → `"@ + bits_text(new) + "`"@, inline: true },
            ),
            AuditChange::Archived { old, new } => change_field(c, name) == Some(
                FieldView { name, value: bool_text(old) + " → "@ + bool_text(new), inline: true },
            ),
            AuditChange::AutoArchiveDuration { old, new } => change_field(c, name) == Some(
                FieldView { name, value: number_text(old) + " → "@ + number_text(new), inline: true },
            ),
            AuditChange::Available { old, new } => change_field(c, name) == Some(
                FieldView { name, value: bool_text(old) + " → "@ + bool_text(new), inline: true },
            ),
            AuditChange::AvatarHash { old, new } => change_field(c, name) == Some(
                FieldView { name, value: "`"@ + text_or_none(opt_view(old)) + "` → `"@ + text_or_none(opt_view(new)) + "`"@, inline: true },
            ),
            AuditChange::BannerHash { old, new } => change_field(c, name) == Some(
                FieldView { name, value: "`"@ + text_or_none(opt_view(old)) + "` → `"@ + text_or_none(opt_view(new)) + "`"@, inline: true },
            ),
            AuditChange::Bitrate { old, new } => change_field(c, name) == Some(
                FieldView { name, value: kbps_text(old) + " → "@ + kbps_text(new), inline: true },
            ),
            AuditChange::ChannelId { old, new } => change_field(c, name) == Some(
                FieldView { name, value: channel_text(old) + " → "@ + channel_text(new), inline: true },
            ),
            AuditChange::Code { old, new } => change_field(c, name) == Some(
                FieldView { name, value: "`"@ + text_or_none(opt_view(old)) + "` → `"@ + text_or_none(opt_view(new)) + "`"@, inline: true },
            ),
            AuditChange::Color { old, new } => change_field(c, name) == Some(
                FieldView { name, value: color_text(old) + " → "@ + color_text(new), inline: true },
            ),
            AuditChange::CommunicationDisabledUntil { old, new } => change_field(c, name) == Some(
                FieldView { name, value: timestamp_text(old) + " → "@ + timestamp_text(new), inline: true },
            ),
            AuditChange::Deaf { old, new } => change_field(c, name) == Some(
                FieldView { name, value: bool_text(old) + " → "@ + bool_text(new), inline: true },
            ),
            AuditChange::DefaultAutoArchiveDuration { old, new } => change_field(c, name) == Some(
                FieldView { name, value: number_text(old) + " → "@ + number_text(new), inline: true },
            ),
            AuditChange::DefaultMessageNotifications { old, new } => change_field(c, name) == Some(
                FieldView { name, value: text_or_none(opt_view(old)) + " → "@ + text_or_none(opt_view(new)), inline: true },
            ),
            AuditChange::Deny { old, new } => change_field(c, name) == Some(
                FieldView { name, value: "`"@ + bits_text(old) + "` → `"@ + bits_text(new) + "`"@, inline: true },
            ),
            AuditChange::Description { old, new } => change_field(c, name) == Some(
                FieldView { name, value: "`"@ + truncated_text(opt_view(old)) + "` → `"@ + truncated_text(opt_view(new)) + "`"@, inline: false },
            ),
            AuditChange::DiscoverySplashHash { old, new } => change_field(c, name) == Some(
                FieldView { name, value: "`"@ + text_or_none(opt_view(old)) + "` → `"@ + text_or_none(opt_view(new)) + "`"@, inline: true },
            ),
            AuditChange::EnableEmoticons { old, new } => change_field(c, name) == Some(
                FieldView { name, value: bool_text(old) + " → "@ + bool_text(new), inline: true },
            ),
            AuditChange::EntityType { old, new } => change_field(c, name) == Some(
                FieldView { name, value: number_text(old) + " → "@ + number_text(new), inline: true },
            ),
            AuditChange::ExpireBehavior { old, new } => change_field(c, name) == Some(
                FieldView { name, value: number_text(old) + " → "@ + number_text(new), inline: true },
            ),
            AuditChange::ExpireGracePeriod { old, new } => change_field(c, name) == Some(
                FieldView { name, value: days_text(old) + " → "@ + days_text(new), inline: true },
            ),
            AuditChange::ExplicitContentFilter { old, new } => change_field(c, name) == Some(
                FieldView { name, value: text_or_none(opt_view(old)) + " → "@ + text_or_none(opt_view(new)), inline: true },
            ),
            AuditChange::FormatType { old, new } => change_field(c, name) == Some(
                FieldView { name, value: text_or_none(opt_view(old)) + " → "@ + text_or_none(opt_view(new)), inline: true },
            ),
            AuditChange::Hoist { old, new } => change_field(c, name) == Some(
                FieldView { name, value: bool_text(old) + " → "@ + bool_text(new), inline: true },
            ),
            AuditChange::IconHash { old, new } => change_field(c, name) == Some(
                FieldView { name, value: "`"@ + text_or_none(opt_view(old)) + "` → `"@ + text_or_none(opt_view(new)) + "`"@, inline: true },
            ),
            AuditChange::ImageHash { old, new } => change_field(c, name) == Some(
                FieldView { name, value: "`"@ + text_or_none(opt_view(old)) + "` → `"@ + text_or_none(opt_view(new)) + "`"@, inline: true },
            ),
            AuditChange::Invitable { old, new } => change_field(c, name) == Some(
                FieldView { name, value: bool_text(old) + " → "@ + bool_text(new), inline: true },
            ),
            AuditChange::InviterId { old, new } => change_field(c, name) == Some(
                FieldView { name, value: user_text(old) + " → "@ + user_text(new), inline: true },
            ),
            AuditChange::Location { old, new } => change_field(c, name) == Some(
                FieldView { name, value: "`"@ + text_or_none(opt_view(old)) + "` → `"@ + text_or_none(opt_view(new)) + "`"@, inline: true },
            ),
            AuditChange::Locked { old, new } => change_field(c, name) == Some(
                FieldView { name, value: bool_text(old) + " → "@ + bool_text(new), inline: true },
            ),
            AuditChange::MaxAge { old, new } => change_field(c, name) == Some(
                FieldView { name, value: never_text(old) + " → "@ + never_text(new), inline: true },
            ),
            AuditChange::MaxUses { old, new } => change_field(c, name) == Some(
                FieldView { name, value: unlimited_text(old) + " → "@ + unlimited_text(new), inline: true },
            ),
            AuditChange::Mentionable { old, new } => change_field(c, name) == Some(
                FieldView { name, value: bool_text(old) + " → "@ + bool_text(new), inline: true },
            ),
            AuditChange::MfaLevel { old, new } => change_field(c, name) == Some(
                FieldView { name, value: text_or_none(opt_view(old)) + " → "@ + text_or_none(opt_view(new)), inline: true },
            ),
            AuditChange::Mute { old, new } => change_field(c, name) == Some(
                FieldView { name, value: bool_text(old) + " → "@ + bool_text(new), inline: true },
            ),
            AuditChange::Name { old, new } => change_field(c, name) == Some(
                FieldView { name, value: "`"@ + text_or_none(opt_view(old)) + "` → `"@ + text_or_none(opt_view(new)) + "`"@, inline: true },
            ),
            AuditChange::Nick { old, new } => change_field(c, name) == Some(
                FieldView { name, value: "`"@ + text_or_none(opt_view(old)) + "` → `"@ + text_or_none(opt_view(new)) + "`"@, inline: true },
            ),
            AuditChange::Nsfw { old, new } => change_field(c, name) == Some(
                FieldView { name, value: bool_text(old) + " → "@ + bool_text(new), inline: true },
            ),
            AuditChange::OwnerId { old, new } => change_field(c, name) == Some(
                FieldView { name, value: user_text(old) + " → "@ + user_text(new), inline: true },
            ),
            AuditChange::Permissions { old, new } => change_field(c, name) == Some(
                FieldView { name, value: "`"@ + bits_text(old) + "` → `"@ + bits_text(new) + "`"@, inline: true },
            ),
            AuditChange::Position { old, new } => change_field(c, name) == Some(
                FieldView { name, value: number_text(old) + " → "@ + number_text(new), inline: true },
            ),
            AuditChange::PreferredLocale { old, new } => change_field(c, name) == Some(
                FieldView { name, value: "`"@ + text_or_none(opt_view(old)) + "` → `"@ + text_or_none(opt_view(new)) + "`"@, inline: true },
            ),
            AuditChange::PrivacyLevel { old, new } => change_field(c, name) == Some(
                FieldView { name, value: number_text(old) + " → "@ + number_text(new), inline: true },
            ),
            AuditChange::PruneDeleteDays { old, new } => change_field(c, name) == Some(
                FieldView { name, value: days_text(old) + " → "@ + days_text(new), inline: true },
            ),
            AuditChange::PublicUpdatesChannelId { old, new } => change_field(c, name) == Some(
                FieldView { name, value: channel_text(old) + " → "@ + channel_text(new), inline: true },
            ),
            AuditChange::RateLimitPerUser { old, new } => change_field(c, name) == Some(
                FieldView { name, value: off_text(old) + " → "@ + off_text(new), inline: true },
            ),
            AuditChange::Region { old, new } => change_field(c, name) == Some(
                FieldView { name, value: "`"@ + text_or_none(opt_view(old)) + "` → `"@ + text_or_none(opt_view(new)) + "`"@, inline: true },
            ),
            AuditChange::RulesChannelId { old, new } => change_field(c, name) == Some(
                FieldView { name, value: channel_text(old) + " → "@ + channel_text(new), inline: true },
            ),
            AuditChange::SplashHash { old, new } => change_field(c, name) == Some(
                FieldView { name, value: "`"@ + text_or_none(opt_view(old)) + "` → `"@ + text_or_none(opt_view(new)) + "`"@, inline: true },
            ),
            AuditChange::Status { old, new } => change_field(c, name) == Some(
                FieldView { name, value: number_text(old) + " → "@ + number_text(new), inline: true },
            ),
            AuditChange::SystemChannelId { old, new } => change_field(c, name) == Some(
                FieldView { name, value: channel_text(old) + " → "@ + channel_text(new), inline: true },
            ),
            AuditChange::Tags { old, new } => change_field(c, name) == Some(
                FieldView { name, value: "`"@ + text_or_none(opt_view(old)) + "` → `"@ + text_or_none(opt_view(new)) + "`"@, inline: true },
            ),
            AuditChange::Temporary { old, new } => change_field(c, name) == Some(
                FieldView { name, value: bool_text(old) + " → "@ + bool_text(new), inline: true },
            ),
            AuditChange::Topic { old, new } => change_field(c, name) == Some(
                FieldView { name, value: "`"@ + truncated_text(opt_view(old)) + "` → `"@ + truncated_text(opt_view(new)) + "`"@, inline: false },
            ),
            AuditChange::Type { old, new } => change_field(c, name) == Some(
                FieldView { name, value: text_or_none(opt_view(old)) + " → "@ + text_or_none(opt_view(new)), inline: true },
            ),
            AuditChange::UnicodeEmoji { old, new } => change_field(c, name) == Some(
                FieldView { name, value: text_or_none(opt_view(old)) + " → "@ + text_or_none(opt_view(new)), inline: true },
            ),
            AuditChange::UserLimit { old, new } => change_field(c, name) == Some(
                FieldView { name, value: unlimited_text(old) + " → "@ + unlimited_text(new), inline: true },
            ),
            AuditChange::Uses { old, new } => change_field(c, name) == Some(
                FieldView { name, value: number_text(old) + " → "@ + number_text(new), inline: true },
            ),
            AuditChange::VanityUrlCode { old, new } => change_field(c, name) == Some(
                FieldView { name, value: "`"@ + text_or_none(opt_view(old)) + "` → `"@ + text_or_none(opt_view(new)) + "`"@, inline: true },
            ),
            AuditChange::VerificationLevel { old, new } => change_field(c, name) == Some(
                FieldView { name, value: text_or_none(opt_view(old)) + " → "@ + text_or_none(opt_view(new)), inline: true },
            ),
            AuditChange::WidgetChannelId { old, new } => change_field(c, name) == Some(
                FieldView { name, value: channel_text(old) + " → "@ + channel_text(new), inline: true },
            ),
            AuditChange::WidgetEnabled { old, new } => change_field(c, name) == Some(
                FieldView { name, value: bool_text(old) + " → "@ + bool_text(new), inline: true },
            ),
            AuditChange::SystemChannelFlags { old, new } => change_field(c, name) == Some(
                FieldView { name, value: "`"@ + number_text(old) + "` → `"@ + number_text(new) + "`"@, inline: true },
            ),
            AuditChange::Other { name: own, old, new } => change_field(c, name) == Some(
                FieldView {
                    name: own@,
                    value: "`"@ + text_or_none(opt_view(old)) + "` → `"@ + text_or_none(opt_view(new)) + "`"@,
                    inline: true,
                },
            ),
            _ => true,
        },
{
}

/// How one old or new value reads inside a change: an absent value reads
/// `None` (an absent permission set reads `0`); a channel as its mention
/// `<#id>`, a user as `<@id>`, a role as `<@&id>`; a bitrate in whole kilobits
/// per second; a colour as `#` and six upper-case hex digits; a timestamp as a
/// relative Discord timestamp; a duration of zero as `Never`, a use count of
/// zero as `Unlimited`, a slow mode of zero as `Off`, other amounts with their
/// unit; a flag as `true` or `false`.
pub proof fn lemma_value_texts(v: u64, c: u32, t: i64, b: bool)
    ensures
        channel_text(None) == "None"@ && channel_text(Some(v)) == "<#"@ + decimal(v as nat) + ">"@,
        user_text(None) == "None"@ && user_text(Some(v)) == "<@"@ + decimal(v as nat) + ">"@,
        role_mention(v) == "<@&"@ + decimal(v as nat) + ">"@,
        bits_text(None) == "0"@ && bits_text(Some(v)) == decimal(v as nat),
        number_text(None) == "None"@ && number_text(Some(v)) == decimal(v as nat),
        bool_text(None) == "None"@ && bool_text(Some(true)) == "true"@ && bool_text(Some(false))
            == "false"@,
        kbps_text(None) == "None"@ && kbps_text(Some(v)) == decimal((v / 1000) as nat) + "kbps"@,
        color_text(None) == "None"@ && color_text(Some(c)) == "#"@ + zero_padded(hex(c as nat), 6),
        timestamp_text(None) == "None"@ && timestamp_text(Some(t)) == "<t:"@ + decimal_int(t as int)
            + ":R>"@,
        days_text(None) == "None"@ && days_text(Some(v)) == decimal(v as nat) + " days"@,
        never_text(None) == "None"@ && never_text(Some(0)) == "Never"@ && (v != 0 ==> never_text(
            Some(v),
        ) == decimal(v as nat) + "s"@),
        unlimited_text(None) == "None"@ && unlimited_text(Some(0)) == "Unlimited"@ && (v != 0
            ==> unlimited_text(Some(v)) == decimal(v as nat)),
        off_text(None) == "None"@ && off_text(Some(0)) == "Off"@ && (v != 0 ==> off_text(Some(v))
            == decimal(v as nat) + "s"@),
        text_or_none(None) == "None"@,
        forall|x: Seq<char>| #[trigger] text_or_none(Some(x)) == x,
{
}

} // verus!
