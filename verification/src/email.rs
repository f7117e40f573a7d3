//! Email delivery settings and content types.
//!
//! Sending itself is a collaborator outside this library; what lives here
//! is the data a client is handed — settings with their validation, the
//! intermediate body representation, and the error vocabulary.

use vstd::prelude::*;
use crate::masked::Masked;

verus! {

/// An email address, as the platform validated it.
pub struct Email {
    pub address: Masked<String>,
}

/// The intermediate representation of a rich-text (HTML) email body;
/// each client converts it into its own rich-text format.
#[derive(Debug)]
pub struct IntermediateString(pub String);

impl IntermediateString {
    /// Wrap an already-rendered body.
    pub fn new(inner: String) -> (r: Self)
        ensures
            r.0 == inner,
    {
        IntermediateString(inner)
    }

    /// Take the rendered body out.
    pub fn into_inner(self) -> (r: String)
        ensures
            r == self.0,
    {
        self.0
    }
}

/// The contents of one email: subject, body and recipient.
pub struct EmailContents {
    /// The subject of the email.
    pub subject: String,
    /// The body in the intermediate representation.
    pub body: IntermediateString,
    /// Whom the email goes to.
    pub recipient: Email,
}

/// Configuration of the hosted email service client.
pub struct SesConfig {
    /// The role assumed to send email.
    pub email_role_arn: String,
    /// The session name the assumed role runs under.
    pub sts_role_session_name: String,
}

impl SesConfig {
    /// A hosted-service configuration is usable when both role fields are
    /// given.
    pub fn validate(&self) -> (r: Result<(), &'static str>)
        ensures
            r is Ok <==> self.email_role_arn@.len() > 0 && self.sts_role_session_name@.len() > 0,
    {
        if self.email_role_arn.as_str().is_empty() {
            return Err("email.aws_ses.email_role_arn must not be empty");
        }
        if self.sts_role_session_name.as_str().is_empty() {
            return Err("email.aws_ses.sts_role_session_name must not be empty");
        }
        Ok(())
    }
}

/// Configuration of a plain SMTP server client.
pub struct SmtpServerConfig {
    pub host: String,
    pub port: u16,
    pub username: Option<Masked<String>>,
    pub password: Option<Masked<String>>,
}

impl SmtpServerConfig {
    /// An SMTP configuration is usable when it names a host.
    pub fn validate(&self) -> (r: Result<(), &'static str>)
        ensures
            r is Ok <==> self.host@.len() > 0,
    {
        if self.host.as_str().is_empty() {
            return Err("email.smtp.host must not be empty");
        }
        Ok(())
    }
}

/// The email clients to choose from.
pub enum EmailClientConfigs {
    /// No client: email support is switched off.
    NoEmailClient,
    /// The hosted email service.
    Ses { aws_ses: SesConfig },
    /// A plain SMTP server.
    Smtp { smtp: SmtpServerConfig },
}

/// Whether an email client configuration is usable.
pub open spec fn spec_email_client_config_valid(c: EmailClientConfigs) -> bool {
    match c {
        EmailClientConfigs::NoEmailClient => true,
        EmailClientConfigs::Ses { aws_ses } => aws_ses.email_role_arn@.len() > 0
            && aws_ses.sts_role_session_name@.len() > 0,
        EmailClientConfigs::Smtp { smtp } => smtp.host@.len() > 0,
    }
}

/// The settings an email client is built from.
pub struct EmailSettings {
    /// The region the hosted service is addressed in.
    pub aws_region: String,
    /// How many days an unverified account may keep sending.
    pub allowed_unverified_days: i64,
    /// The sender address.
    pub sender_email: String,
    /// Which client to use, with its configuration.
    pub client_config: EmailClientConfigs,
    /// Recipient of reconciliation mail.
    pub recon_recipient_email: Email,
    /// Recipient of production-intent mail.
    pub prod_intent_recipient_email: Email,
}

impl EmailSettings {
    /// Validate the client-specific part of the settings.
    pub fn validate(&self) -> (r: Result<(), &'static str>)
        ensures
            r is Ok <==> spec_email_client_config_valid(self.client_config),
    {
        match &self.client_config {
            EmailClientConfigs::Ses { aws_ses } => aws_ses.validate(),
            EmailClientConfigs::Smtp { smtp } => smtp.validate(),
            EmailClientConfigs::NoEmailClient => Ok(()),
        }
    }
}

/// What can go wrong around an email client.
#[derive(Clone, Copy, Debug, PartialEq, Eq, Structural)]
pub enum EmailError {
    /// The client could not be built.
    ClientBuildingFailure,
    /// The email could not be sent.
    EmailSendingFailure,
    /// The token embedded in the email could not be generated.
    TokenGenerationFailure,
    /// The requested feature is not available.
    NotImplemented,
    /// The email contents could not be built.
    ContentBuildFailure,
}

/// The message each email error reads as.
pub open spec fn spec_email_error_message(e: EmailError) -> Seq<char> {
    match e {
        EmailError::ClientBuildingFailure => "Error building email client"@,
        EmailError::EmailSendingFailure => "Error sending email to recipient"@,
        EmailError::TokenGenerationFailure => "Failed to generate email token"@,
        EmailError::NotImplemented => "Feature not implemented"@,
        EmailError::ContentBuildFailure => "Error building email content"@,
    }
}

impl EmailError {
    /// The human-readable message of the error.
    pub fn message(&self) -> (r: &'static str)
        ensures
            r@ == spec_email_error_message(*self),
    {
        match self {
            EmailError::ClientBuildingFailure => "Error building email client",
            EmailError::EmailSendingFailure => "Error sending email to recipient",
            EmailError::TokenGenerationFailure => "Failed to generate email token",
            EmailError::NotImplemented => "Feature not implemented",
            EmailError::ContentBuildFailure => "Error building email content",
        }
    }
}

} // verus!
