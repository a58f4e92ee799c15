//! The command line: the values it was given and how the resource
//! arguments are read.
use vstd::prelude::*;

use crate::app::state::Tab;
use crate::domain::resource_id::{
    id_result_view, opt_id_result_view, owner_repo_number_spec, parse_spec, IdView, ResourceId,
    ResourceIdError,
};
use crate::github::api::ApiDepth;
use crate::session::RestoreMode;
use crate::settings::{ContentWidthMode, ScrollbarMode, SpacingMode, SymbolMode, ThemeName};

verus! {

/// The automatic refresh interval, in seconds, when none is given.
pub const DEFAULT_REFRESH_SECONDS: u64 = 300;

/// The options and arguments of one launch.
#[derive(Debug, Clone, PartialEq, Eq)]
pub struct Cli {
    /// GitHub resource as URL, owner/repo#number, or owner/repo number.
    pub resource: Vec<String>,
    /// Start a new saved restore session for this launch context.
    pub new: bool,
    /// Disable session restore and avoid binding this launch context.
    pub no_restore: bool,
    /// Load or create a named restore session.
    pub session: Option<String>,
    /// Load a normalized resource fixture instead of calling GitHub.
    pub offline_fixture: Option<String>,
    /// Additional normalized resource fixtures for offline click-through navigation.
    pub offline_resource_fixture: Vec<String>,
    /// Disable mouse capture.
    pub no_mouse: bool,
    /// Refresh interval in seconds.
    pub refresh_seconds: u64,
    /// GitHub API depth: partial keeps quota low, full follows all supported pages.
    pub api_depth: Option<ApiDepth>,
    /// Render one frame and exit.
    pub once: bool,
    /// Initial tab to show.
    pub tab: Option<Tab>,
    /// Override configured UI theme.
    pub theme: Option<ThemeName>,
    /// Override configured symbol style.
    pub symbols: Option<SymbolMode>,
    /// Override configured spacing.
    pub spacing: Option<SpacingMode>,
    /// Override configured content width mode.
    pub width_mode: Option<ContentWidthMode>,
    /// Override configured fixed content width.
    pub fixed_width: Option<u16>,
    /// Override configured scrollbar visibility.
    pub scrollbar: Option<ScrollbarMode>,
}

/// How the resource arguments are read: one argument as a reference, two as
/// `owner/repo` and a number; any other count is invalid.
pub open spec fn resource_args_spec(args: Seq<Seq<char>>) -> Result<IdView, ResourceIdError> {
    if args.len() == 1 {
        parse_spec(args[0], None)
    } else if args.len() == 2 {
        owner_repo_number_spec(args[0], args[1])
    } else {
        Err(ResourceIdError::Invalid)
    }
}

impl Cli {
    /// `--no-restore` wins over `--new`; without either, sessions restore.
    pub fn restore_mode(&self) -> (m: RestoreMode)
        ensures
            m == if self.no_restore {
                RestoreMode::NoRestore
            } else if self.new {
                RestoreMode::New
            } else {
                RestoreMode::Auto
            },
    {
        if self.no_restore {
            RestoreMode::NoRestore
        } else if self.new {
            RestoreMode::New
        } else {
            RestoreMode::Auto
        }
    }

    pub fn has_resource_arg(&self) -> (b: bool)
        ensures
            b == (self.resource@.len() > 0),
    {
        self.resource.len() > 0
    }

    /// Reads the resource arguments (see `resource_args_spec`).
    pub fn parse_resource_id(&self) -> (r: Result<ResourceId, ResourceIdError>)
        ensures
            id_result_view(r) == resource_args_spec(crate::domain::resource::strs(self.resource@)),
    {
        if self.resource.len() == 1 {
            ResourceId::parse(self.resource[0].as_str())
        } else if self.resource.len() == 2 {
            ResourceId::from_owner_repo_number(self.resource[0].as_str(), self.resource[1].as_str())
        } else {
            Err(ResourceIdError::Invalid)
        }
    }

    /// No resource when none is given, else the one the arguments name.
    pub fn parse_optional_resource_id(&self) -> (r: Result<Option<ResourceId>, ResourceIdError>)
        ensures
            opt_id_result_view(r) == if self.resource@.len() == 0 {
                Ok(None)
            } else {
                match resource_args_spec(crate::domain::resource::strs(self.resource@)) {
                    Ok(id) => Ok(Some(id)),
                    Err(e) => Err(e),
                }
            },
    {
        if self.resource.len() == 0 {
            Ok(None)
        } else {
            match self.parse_resource_id() {
                Ok(id) => Ok(Some(id)),
                Err(e) => Err(e),
            }
        }
    }
}

} // verus!
