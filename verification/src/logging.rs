//! How the log of the process is set up from the general settings.

use vstd::prelude::*;
use crate::config::GeneralConfig;
use crate::config::GeneralView;

verus! {

/// Why the log could not be set up.
#[derive(Debug)]
pub enum Error {
    /// The general settings could not be reached.
    LockingConfig,
    /// The logger could not be reached.
    LockingLogger,
    /// The level of the general settings is no log specification.
    ParsingLogLevel(String),
    /// The logger did not start.
    Logger(String),
    /// A logger is running already.
    LoggerAlreadyConfigured,
}

/// Whether `flexi_logger` reads a text as a log specification.
pub uninterp spec fn log_spec_accepted(level: Seq<char>) -> bool;

/// `flexi_logger::LogSpecification::parse`. The contract names whether the
/// text is read as a log specification; the reason for a refusal is handed on
/// as text, with nothing claimed of it.
#[verifier::external_body]
fn check_log_level(level: &str) -> (checked: Result<(), String>)
    ensures
        checked is Ok == log_spec_accepted(level@),
{
    match flexi_logger::LogSpecification::parse(level) {
        Ok(_) => Ok(()),
        Err(err) => Err(err.to_string()),
    }
}

/// The shape of a log line.
#[derive(Debug, Clone, Copy, PartialEq, Eq, Structural)]
pub enum Format {
    Default,
    Detailed,
    ColoredDefault,
    ColoredDetailed,
}

/// Where log lines go.
#[derive(Debug)]
pub enum Destination {
    /// Nowhere: the lines are dropped.
    Nowhere,
    /// To the standard error stream.
    Stderr,
    /// To a file in `directory` and, if `duplicate_to_stderr`, to the
    /// standard error stream as well.
    File { directory: String, duplicate_to_stderr: bool },
}

/// What a `Destination` holds, as plain text.
pub enum DestinationView {
    Nowhere,
    Stderr,
    File { directory: Seq<char>, duplicate_to_stderr: bool },
}

impl View for Destination {
    type V = DestinationView;

    open spec fn view(&self) -> DestinationView {
        match *self {
            Destination::Nowhere => DestinationView::Nowhere,
            Destination::Stderr => DestinationView::Stderr,
            Destination::File { directory, duplicate_to_stderr } => DestinationView::File {
                directory: directory@,
                duplicate_to_stderr,
            },
        }
    }
}

/// A logger that is to be started.
#[derive(Debug)]
pub struct LogSetup {
    pub level: String,
    pub append: bool,
    pub destination: Destination,
    pub format: Format,
    pub stderr_format: Option<Format>,
}

/// What is to be done about the log.
#[derive(Debug)]
pub enum LogPlan {
    /// Logging is switched off: a running logger is to be dropped.
    Off,
    /// A logger is to be started.
    Start(LogSetup),
}

/// The shape of the log lines under the general settings: with or without
/// colours, with or without details.
pub open spec fn format_of(general: GeneralView) -> Format {
    if general.log_colors && general.log_details {
        Format::ColoredDetailed
    } else if general.log_colors {
        Format::ColoredDefault
    } else if general.log_details {
        Format::Detailed
    } else {
        Format::Default
    }
}

/// The shape of the log lines on the standard error stream, where the general
/// settings ask for one of its own: they do where they ask for colours there.
pub open spec fn stderr_format_of(general: GeneralView) -> Option<Format> {
    if general.log_stderr_colors && general.log_details {
        Some(Format::ColoredDetailed)
    } else if general.log_stderr_colors {
        Some(Format::ColoredDefault)
    } else {
        None
    }
}

/// Where the log lines go under the general settings: nowhere where neither
/// a file nor the standard error stream is asked for; to a file where one is
/// asked for, and then to the stream as well if that is asked for too; else to
/// the stream alone.
pub open spec fn destination_of(general: GeneralView) -> DestinationView {
    if !general.logging_file && !general.logging_stderr {
        DestinationView::Nowhere
    } else if general.logging_file {
        DestinationView::File {
            directory: general.log_dir,
            duplicate_to_stderr: general.logging_stderr,
        }
    } else {
        DestinationView::Stderr
    }
}

/// Whether `setup` is the logger that the general settings ask for.
pub open spec fn is_setup_of(setup: LogSetup, general: GeneralView) -> bool {
    &&& setup.level@ == general.log_level
    &&& setup.append == general.log_append
    &&& setup.destination@ == destination_of(general)
    &&& setup.format == format_of(general)
    &&& setup.stderr_format == stderr_format_of(general)
}

/// The logger that is to be started under the general settings, given what
/// reading their level as a log specification came to. Where the level was
/// refused, no logger is started and the answer is the error
/// `ParsingLogLevel` with the reason.
pub fn start_plan(general_config: &GeneralConfig, level: Result<(), String>) -> (plan: Result<
    LogPlan,
    Error,
>)
    ensures
        match level {
            Ok(_) => plan matches Ok(LogPlan::Start(setup)) && is_setup_of(setup, general_config@),
            Err(reason) => plan matches Err(Error::ParsingLogLevel(r)) && r == reason,
        },
{
    if let Err(reason) = level {
        return Err(Error::ParsingLogLevel(reason));
    }
    let destination = if !general_config.logging_file && !general_config.logging_stderr {
        Destination::Nowhere
    } else if general_config.logging_file {
        Destination::File {
            directory: general_config.log_dir.clone(),
            duplicate_to_stderr: general_config.logging_stderr,
        }
    } else {
        Destination::Stderr
    };
    let format = if general_config.log_colors && general_config.log_details {
        Format::ColoredDetailed
    } else if general_config.log_colors {
        Format::ColoredDefault
    } else if general_config.log_details {
        Format::Detailed
    } else {
        Format::Default
    };
    let stderr_format = if general_config.log_stderr_colors && general_config.log_details {
        Some(Format::ColoredDetailed)
    } else if general_config.log_stderr_colors {
        Some(Format::ColoredDefault)
    } else {
        None
    };
    Ok(
        LogPlan::Start(
            LogSetup {
                level: general_config.log_level.clone(),
                append: general_config.log_append,
                destination,
                format,
                stderr_format,
            },
        ),
    )
}

/// Decides what is to be done about the log, given the general settings and
/// whether a logger is running.
///
/// Where logging is switched off, a running logger is to be dropped. Where it
/// is switched on and a logger is running, nothing is done and the answer is
/// the error `LoggerAlreadyConfigured`. Else the level has to be a log
/// specification, and the logger that the settings ask for is to be started.
pub fn configure_logging(general_config: &GeneralConfig, configured: bool) -> (plan: Result<LogPlan, Error>)
    ensures
        match plan {
            Ok(LogPlan::Off) => !general_config.logging_enabled,
            Ok(LogPlan::Start(setup)) => {
                &&& general_config.logging_enabled
                &&& !configured
                &&& log_spec_accepted(general_config.log_level@)
                &&& is_setup_of(setup, general_config@)
            },
            Err(Error::LoggerAlreadyConfigured) => general_config.logging_enabled && configured,
            Err(Error::ParsingLogLevel(_)) => {
                &&& general_config.logging_enabled
                &&& !configured
                &&& !log_spec_accepted(general_config.log_level@)
            },
            Err(_) => false,
        },
{
    if !general_config.logging_enabled {
        return Ok(LogPlan::Off);
    }
    if configured {
        return Err(Error::LoggerAlreadyConfigured);
    }
    start_plan(general_config, check_log_level(general_config.log_level.as_str()))
}

} // verus!
