use vstd::prelude::*;

pub mod format;
pub mod level;
pub mod logger;

use crate::level::LevelFilter;
use crate::logger::{
    install_fails, opt_view, with_console, with_file, with_level, LogError, Logsy,
};

verus! {

/// Installs the logger where needed, then switches console output on.
/// `Ok(true)` asks the caller to register the freshly installed logger with
/// the host; an override that names no level fails, changing nothing.
pub fn try_to_console<F>(conf: &mut Logsy<F>, level_override: Option<&str>) -> (r: Result<bool, LogError>)
    ensures
        install_fails(*old(conf), opt_view(level_override)) ==> {
            &&& r matches Err(LogError::InvalidLevelOverride(v))
            &&& level_override matches Some(o) && v@ == o@
            &&& *final(conf) == *old(conf)
        },
        !install_fails(*old(conf), opt_view(level_override)) ==> {
            &&& r == Ok::<bool, LogError>(!old(conf).installed)
            &&& *final(conf) == with_console(*old(conf), true, opt_view(level_override))
        },
{
    let fresh = conf.ensure_installed(level_override)?;
    conf.to_stderr = true;
    Ok(fresh)
}

/// Switches console output on, installing the logger where needed; returns
/// whether this call installed it.
pub fn to_console<F>(conf: &mut Logsy<F>, level_override: Option<&str>) -> (r: bool)
    requires
        !install_fails(*old(conf), opt_view(level_override)),
    ensures
        r == !old(conf).installed,
        *final(conf) == with_console(*old(conf), true, opt_view(level_override)),
{
    match try_to_console(conf, level_override) {
        Ok(fresh) => fresh,
        Err(_) => false,
    }
}

/// Installs the logger where needed, then makes `file` the file sink; the
/// handle it replaces is dropped. `Ok(true)` asks the caller to register the
/// freshly installed logger; an override that names no level fails,
/// changing nothing.
pub fn try_to_file<F>(conf: &mut Logsy<F>, file: F, level_override: Option<&str>) -> (r: Result<bool, LogError>)
    ensures
        install_fails(*old(conf), opt_view(level_override)) ==> {
            &&& r matches Err(LogError::InvalidLevelOverride(v))
            &&& level_override matches Some(o) && v@ == o@
            &&& *final(conf) == *old(conf)
        },
        !install_fails(*old(conf), opt_view(level_override)) ==> {
            &&& r == Ok::<bool, LogError>(!old(conf).installed)
            &&& *final(conf) == with_file(*old(conf), Some(file), opt_view(level_override))
        },
{
    let fresh = conf.ensure_installed(level_override)?;
    conf.to_file = Some(file);
    Ok(fresh)
}

/// Makes `file` the file sink, installing the logger where needed; returns
/// whether this call installed it.
pub fn to_file<F>(conf: &mut Logsy<F>, file: F, level_override: Option<&str>) -> (r: bool)
    requires
        !install_fails(*old(conf), opt_view(level_override)),
    ensures
        r == !old(conf).installed,
        *final(conf) == with_file(*old(conf), Some(file), opt_view(level_override)),
{
    match try_to_file(conf, file, level_override) {
        Ok(fresh) => fresh,
        Err(_) => false,
    }
}

/// Installs the logger where needed, then stops writing to a file; the
/// handle is dropped. `Ok(true)` asks the caller to register the freshly
/// installed logger; an override that names no level fails, changing
/// nothing.
pub fn clear_file<F>(conf: &mut Logsy<F>, level_override: Option<&str>) -> (r: Result<bool, LogError>)
    ensures
        install_fails(*old(conf), opt_view(level_override)) ==> {
            &&& r matches Err(LogError::InvalidLevelOverride(v))
            &&& level_override matches Some(o) && v@ == o@
            &&& *final(conf) == *old(conf)
        },
        !install_fails(*old(conf), opt_view(level_override)) ==> {
            &&& r == Ok::<bool, LogError>(!old(conf).installed)
            &&& *final(conf) == with_file(*old(conf), None, opt_view(level_override))
        },
{
    let fresh = conf.ensure_installed(level_override)?;
    conf.to_file = None;
    Ok(fresh)
}

/// Installs the logger where needed, then sets the minimum severity and the
/// host's global hint. `Ok(true)` asks the caller to register the freshly
/// installed logger; an override that names no level fails, changing
/// nothing.
pub fn try_set_level<F>(conf: &mut Logsy<F>, filter: LevelFilter, level_override: Option<&str>) -> (r: Result<bool, LogError>)
    ensures
        install_fails(*old(conf), opt_view(level_override)) ==> {
            &&& r matches Err(LogError::InvalidLevelOverride(v))
            &&& level_override matches Some(o) && v@ == o@
            &&& *final(conf) == *old(conf)
        },
        !install_fails(*old(conf), opt_view(level_override)) ==> {
            &&& r == Ok::<bool, LogError>(!old(conf).installed)
            &&& *final(conf) == with_level(*old(conf), filter, opt_view(level_override))
        },
{
    let fresh = conf.ensure_installed(level_override)?;
    conf.apply_level(filter);
    Ok(fresh)
}

/// Sets the minimum severity, installing the logger where needed; returns
/// whether this call installed it.
pub fn set_level<F>(conf: &mut Logsy<F>, filter: LevelFilter, level_override: Option<&str>) -> (r: bool)
    requires
        !install_fails(*old(conf), opt_view(level_override)),
    ensures
        r == !old(conf).installed,
        *final(conf) == with_level(*old(conf), filter, opt_view(level_override)),
{
    match try_set_level(conf, filter, level_override) {
        Ok(fresh) => fresh,
        Err(_) => false,
    }
}

} // verus!
