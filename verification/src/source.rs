//! Where the settings come from, and what is accepted of what came.

use crate::error::SettingsError;
use crate::error::SettingsErrorView;
use crate::pattern::ColorPattern;
use crate::rules::settings_violation;
use crate::rules::valid;
use crate::settings::LandscapeSettings;
use std::path::PathBuf;
use vstd::prelude::*;

verus! {

/// `std::path::PathBuf`, the path of a file. It is carried from the source
/// to the caller that reads the file, and never looked into.
#[verifier::external_type_specification]
#[verifier::external_body]
pub struct ExPathBuf(PathBuf);

/// The source of the settings: a local file, a url, or both.
#[derive(Debug, Clone, PartialEq)]
pub struct SettingsSource {
    /// Landscape settings file local path.
    pub settings_file: Option<PathBuf>,
    /// Landscape settings file url.
    pub settings_url: Option<String>,
}

/// The one place the settings are read from.
#[derive(Debug, Clone, Copy, PartialEq)]
pub enum Origin<'a> {
    /// The local file at this path.
    File(&'a PathBuf),
    /// The document that a GET request to this url returns.
    Url(&'a str),
}

/// The only status with which a server hands out the settings.
pub const STATUS_OK: u16 = 200;

impl SettingsSource {
    /// Picks where to read the settings from. The file comes first: when a
    /// file is given, the url is not used, whether or not there is one. A
    /// source that gives neither is an error.
    pub fn origin(&self) -> (origin: Result<Origin<'_>, SettingsError>)
        ensures
            match (self.settings_file, self.settings_url) {
                (Some(file), _) => origin == Ok::<Origin, SettingsError>(Origin::File(&file)),
                (None, Some(url)) => origin matches Ok(Origin::Url(chosen)) && chosen@ == url@,
                (None, None) => origin == Err::<Origin, SettingsError>(SettingsError::SourceNotProvided),
            },
    {
        // Try from file
        if let Some(file) = &self.settings_file {
            return Ok(Origin::File(file));
        }
        // Try from url
        if let Some(url) = &self.settings_url {
            return Ok(Origin::Url(url.as_str()));
        }
        Err(SettingsError::SourceNotProvided)
    }
}

/// Accepts the answer of a server by its status: only 200 will do. Any
/// other status is an error that carries the code, and with it the phrase
/// that stands for the code, `reason`, where the caller has one.
pub fn check_status(status: u16, reason: Option<&str>) -> (result: Result<(), SettingsError>)
    ensures
        status == STATUS_OK ==> result is Ok,
        status != STATUS_OK ==> (result matches Err(error) && error@ == (
        SettingsErrorView::UnexpectedStatus { status, reason: reason.deep_view() })),
{
    if status != STATUS_OK {
        let reason = match reason {
            Some(phrase) => Some(String::from_str(phrase)),
            None => None,
        };
        return Err(SettingsError::UnexpectedStatus { status, reason });
    }
    Ok(())
}

impl LandscapeSettings {
    /// Hands out the settings when they are valid, unchanged. When they are
    /// not, the settings are dropped and the first broken rule is returned
    /// as the cause of the error. Settings that were handed out once are
    /// handed out again, and so is every value equal to them field by
    /// field.
    pub fn validated(self, pattern: &ColorPattern) -> (result: Result<
        LandscapeSettings,
        SettingsError,
    >)
        ensures
            match result {
                Ok(settings) => settings == self && valid(self@),
                Err(error) => settings_violation(self@) matches Some(violation) && error@ == (
                SettingsErrorView::NotValid { error: violation }),
            },
            result is Ok <==> self@.well_formed(),
    {
        match self.validate(pattern) {
            Ok(_) => Ok(self),
            Err(error) => Err(SettingsError::NotValid { error }),
        }
    }
}

} // verus!
