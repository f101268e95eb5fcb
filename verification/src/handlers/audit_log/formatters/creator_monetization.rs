use crate::handlers::audit_log::COLOR_SUCCESS;
use vstd::prelude::*;

verus! {

/// The action of a creator-monetization entry.
#[derive(Clone, Copy, PartialEq, Eq, Structural, Debug)]
pub enum MonetizationAction {
    RequestCreated,
    TermsAccepted,
    Other,
}

/// Formats the audit-log entries of creator monetization.
pub struct CreatorMonetizationFormatter(pub MonetizationAction);

impl CreatorMonetizationFormatter {
    /// The emoji shown before the title.
    pub fn emoji(&self) -> (r: &'static str)
        ensures
            r@ == match self.0 {
                MonetizationAction::TermsAccepted => "✅"@,
                _ => "💰"@,
            },
    {
        match self.0 {
            MonetizationAction::RequestCreated => "💰",
            MonetizationAction::TermsAccepted => "✅",
            MonetizationAction::Other => "💰",
        }
    }

    /// The colour of the embed.
    pub fn color(&self) -> (r: u32)
        ensures
            r == COLOR_SUCCESS,
    {
        COLOR_SUCCESS
    }

    /// The translation key of the title.
    pub fn title_key(&self) -> (r: &'static str)
        ensures
            r@ == match self.0 {
                MonetizationAction::RequestCreated => "audit_log.creator_monetization.request_created"@,
                MonetizationAction::TermsAccepted => "audit_log.creator_monetization.terms_accepted"@,
                MonetizationAction::Other => "audit_log.creator_monetization.unknown"@,
            },
    {
        match self.0 {
            MonetizationAction::RequestCreated => "audit_log.creator_monetization.request_created",
            MonetizationAction::TermsAccepted => "audit_log.creator_monetization.terms_accepted",
            MonetizationAction::Other => "audit_log.creator_monetization.unknown",
        }
    }

    /// The description, which is empty.
    pub fn description(&self) -> (r: String)
        ensures
            r@ == Seq::<char>::empty(),
    {
        String::new()
    }

    /// Whether the embed lists the entry's changes.
    pub fn lists_changes(&self) -> (r: bool)
        ensures
            !r,
    {
        false
    }
}

} // verus!
