//! Settings of a profile: where the node, the bundler and the entry point
//! are. A setting given on the command line goes before the one that the
//! profile stores.

use vstd::prelude::*;
use crate::hex_text::{address_from_hex, parse_address};
use crate::primitives::Address;

verus! {

/// A setting that can be read, set and unset.
#[derive(Clone, Copy, Debug, PartialEq, Eq, Structural)]
pub enum ConfigItem {
    RpcNodeUrl,
    EntryPointAddr,
    RpcBundlerUrl,
}

/// What to do with the settings of the selected profile.
#[derive(Clone, Debug)]
pub enum ConfigSubcommand {
    /// Show one setting, or all of them where no key is given.
    Get { key: Option<ConfigItem> },
    /// Give a setting a new value.
    Assign { key: ConfigItem, value: String },
    /// Remove a setting.
    Unset { key: ConfigItem },
}

/// A setting that is needed and was given neither on the command line nor in
/// the profile.
#[derive(Clone, Copy, Debug, PartialEq, Eq, Structural)]
pub enum SettingNotSpecifiedError {
    RpcNodeUrl,
    RpcBundlerUrl,
    EntryPointAddr,
}

impl SettingNotSpecifiedError {
    /// A sentence for the user.
    pub fn message(&self) -> (text: &'static str)
        ensures
            text@ == self.spec_message(),
    {
        match self {
            SettingNotSpecifiedError::RpcNodeUrl => "rpc-node-url is not specified, check your profile settings",
            SettingNotSpecifiedError::RpcBundlerUrl => "rpc-bundler-url is not specified, check your profile settings",
            SettingNotSpecifiedError::EntryPointAddr => "entry-point-addr is not specified, check your profile settings",
        }
    }

    pub open spec fn spec_message(&self) -> Seq<char> {
        match self {
            SettingNotSpecifiedError::RpcNodeUrl => "rpc-node-url is not specified, check your profile settings"@,
            SettingNotSpecifiedError::RpcBundlerUrl => "rpc-bundler-url is not specified, check your profile settings"@,
            SettingNotSpecifiedError::EntryPointAddr => "entry-point-addr is not specified, check your profile settings"@,
        }
    }
}

/// The three settings as they are given in one place: on the command line,
/// or in a stored profile.
#[derive(Clone, Debug)]
pub struct ConfigFile {
    pub rpc_node_url: Option<String>,
    pub rpc_bundler_url: Option<String>,
    pub entry_point_addr: Option<Address>,
}

/// The settings in force for one run.
#[derive(Clone, Debug)]
pub struct Config {
    pub profile: String,
    pub rpc_node_url: Option<String>,
    pub rpc_bundler_url: Option<String>,
    pub entry_point_addr: Option<Address>,
}

/// The first of two optional values that is there.
pub open spec fn first_given<T>(first: Option<T>, second: Option<T>) -> Option<T> {
    match first {
        Some(_) => first,
        None => second,
    }
}

fn or_else<T>(first: Option<T>, second: Option<T>) -> (chosen: Option<T>)
    ensures
        chosen == first_given(first, second),
{
    match first {
        Some(value) => Some(value),
        None => second,
    }
}

impl Config {
    /// The settings in force: each from the command line where it is given
    /// there, from the profile otherwise. A bundler that also serves the
    /// node's calls stands in for the node where no node is given.
    pub fn new(profile: String, command_line: ConfigFile, stored: ConfigFile) -> (config: Config)
        ensures
            config.profile == profile,
            config.rpc_node_url == first_given(
                first_given(command_line.rpc_node_url, stored.rpc_node_url),
                stored.rpc_bundler_url,
            ),
            config.entry_point_addr == first_given(
                command_line.entry_point_addr,
                stored.entry_point_addr,
            ),
            config.rpc_bundler_url == first_given(
                command_line.rpc_bundler_url,
                stored.rpc_bundler_url,
            ),
    {
        let stored_bundler = match &stored.rpc_bundler_url {
            Some(url) => Some(url.clone()),
            None => None,
        };
        Config {
            profile,
            rpc_node_url: or_else(
                or_else(command_line.rpc_node_url, stored.rpc_node_url),
                stored_bundler,
            ),
            entry_point_addr: or_else(command_line.entry_point_addr, stored.entry_point_addr),
            rpc_bundler_url: or_else(command_line.rpc_bundler_url, stored.rpc_bundler_url),
        }
    }

    pub fn get_rpc_node_url(&self) -> (result: Result<&str, SettingNotSpecifiedError>)
        ensures
            match self.rpc_node_url {
                Some(url) => result is Ok && result->Ok_0@ == url@,
                None => result == Err::<&str, SettingNotSpecifiedError>(
                    SettingNotSpecifiedError::RpcNodeUrl,
                ),
            },
    {
        match &self.rpc_node_url {
            Some(url) => Ok(url.as_str()),
            None => Err(SettingNotSpecifiedError::RpcNodeUrl),
        }
    }

    pub fn get_entry_point_addr(&self) -> (result: Result<&Address, SettingNotSpecifiedError>)
        ensures
            match self.entry_point_addr {
                Some(address) => result is Ok && *result->Ok_0 == address,
                None => result == Err::<&Address, SettingNotSpecifiedError>(
                    SettingNotSpecifiedError::EntryPointAddr,
                ),
            },
    {
        match &self.entry_point_addr {
            Some(address) => Ok(address),
            None => Err(SettingNotSpecifiedError::EntryPointAddr),
        }
    }

    pub fn get_rpc_bundler_url(&self) -> (result: Result<&str, SettingNotSpecifiedError>)
        ensures
            match self.rpc_bundler_url {
                Some(url) => result is Ok && result->Ok_0@ == url@,
                None => result == Err::<&str, SettingNotSpecifiedError>(
                    SettingNotSpecifiedError::RpcBundlerUrl,
                ),
            },
    {
        match &self.rpc_bundler_url {
            Some(url) => Ok(url.as_str()),
            None => Err(SettingNotSpecifiedError::RpcBundlerUrl),
        }
    }
}

/// A value of a setting, for showing.
#[derive(Clone, Debug)]
pub enum ConfigValue {
    Url(Option<String>),
    Address(Option<Address>),
}

/// What a command does to the stored profile.
#[derive(Clone, Debug)]
pub enum ConfigEffect {
    /// Show one setting; nothing is stored.
    ShowItem(ConfigItem, ConfigValue),
    /// Show every setting; nothing is stored.
    ShowAll(ConfigFile),
    /// Store the profile with these settings.
    Store(ConfigFile),
    /// The value given for the entry point is no address; nothing is stored.
    InvalidAddress,
}

/// The profile with one setting removed, the others as they were.
pub open spec fn without(stored: ConfigFile, key: ConfigItem) -> ConfigFile {
    match key {
        ConfigItem::RpcNodeUrl => ConfigFile { rpc_node_url: None, ..stored },
        ConfigItem::EntryPointAddr => ConfigFile { entry_point_addr: None, ..stored },
        ConfigItem::RpcBundlerUrl => ConfigFile { rpc_bundler_url: None, ..stored },
    }
}

/// What assigning the entry point does, given the address that was read
/// from the value, if one was: with an address the profile is stored with
/// it, without one nothing is stored.
pub open spec fn entry_point_effect(stored: ConfigFile, read: Option<Address>) -> ConfigEffect {
    match read {
        Some(address) => ConfigEffect::Store(
            ConfigFile { entry_point_addr: Some(address), ..stored },
        ),
        None => ConfigEffect::InvalidAddress,
    }
}

/// Whether `effect` is what the command `command` does to the profile
/// `stored`.
pub open spec fn is_effect_of(effect: ConfigEffect, stored: ConfigFile, command: ConfigSubcommand) -> bool {
    match command {
        ConfigSubcommand::Get { key: None } => effect == ConfigEffect::ShowAll(stored),
        ConfigSubcommand::Get { key: Some(ConfigItem::RpcNodeUrl) } => effect == ConfigEffect::ShowItem(
            ConfigItem::RpcNodeUrl,
            ConfigValue::Url(stored.rpc_node_url),
        ),
        ConfigSubcommand::Get { key: Some(ConfigItem::EntryPointAddr) } => effect
            == ConfigEffect::ShowItem(
            ConfigItem::EntryPointAddr,
            ConfigValue::Address(stored.entry_point_addr),
        ),
        ConfigSubcommand::Get { key: Some(ConfigItem::RpcBundlerUrl) } => effect
            == ConfigEffect::ShowItem(
            ConfigItem::RpcBundlerUrl,
            ConfigValue::Url(stored.rpc_bundler_url),
        ),
        ConfigSubcommand::Assign { key: ConfigItem::RpcNodeUrl, value } => effect == ConfigEffect::Store(
            ConfigFile { rpc_node_url: Some(value), ..stored },
        ),
        ConfigSubcommand::Assign { key: ConfigItem::RpcBundlerUrl, value } => effect
            == ConfigEffect::Store(ConfigFile { rpc_bundler_url: Some(value), ..stored }),
        ConfigSubcommand::Assign { key: ConfigItem::EntryPointAddr, value } => match address_from_hex(
            value@,
        ) {
            Some(bytes) => {
                &&& effect matches ConfigEffect::Store(updated)
                &&& updated.entry_point_addr matches Some(address)
                &&& address@ == bytes
                &&& updated.rpc_node_url == stored.rpc_node_url
                &&& updated.rpc_bundler_url == stored.rpc_bundler_url
            },
            None => effect is InvalidAddress,
        },
        ConfigSubcommand::Unset { key } => effect == ConfigEffect::Store(without(stored, key)),
    }
}

/// Assigns the entry point, given the address that was read from the value
/// of the command, if one was.
pub fn assign_entry_point(stored: ConfigFile, read: Option<Address>) -> (effect: ConfigEffect)
    ensures
        effect == entry_point_effect(stored, read),
{
    match read {
        Some(address) => {
            let mut updated = stored;
            updated.entry_point_addr = Some(address);
            ConfigEffect::Store(updated)
        },
        None => ConfigEffect::InvalidAddress,
    }
}

/// Carries out a command on the settings of a profile, and says what is to
/// be shown or stored.
pub fn run_config_command(stored: ConfigFile, command: ConfigSubcommand) -> (effect: ConfigEffect)
    ensures
        is_effect_of(effect, stored, command),
{
    let mut updated = stored;
    match command {
        ConfigSubcommand::Get { key } => match key {
            Some(ConfigItem::RpcNodeUrl) => ConfigEffect::ShowItem(
                ConfigItem::RpcNodeUrl,
                ConfigValue::Url(updated.rpc_node_url),
            ),
            Some(ConfigItem::EntryPointAddr) => ConfigEffect::ShowItem(
                ConfigItem::EntryPointAddr,
                ConfigValue::Address(updated.entry_point_addr),
            ),
            Some(ConfigItem::RpcBundlerUrl) => ConfigEffect::ShowItem(
                ConfigItem::RpcBundlerUrl,
                ConfigValue::Url(updated.rpc_bundler_url),
            ),
            None => ConfigEffect::ShowAll(updated),
        },
        ConfigSubcommand::Assign { key, value } => {
            match key {
                ConfigItem::RpcNodeUrl => {
                    updated.rpc_node_url = Some(value);
                },
                ConfigItem::EntryPointAddr => {
                    let read = match parse_address(value.as_str()) {
                        Ok(address) => Some(address),
                        Err(_) => None,
                    };
                    return assign_entry_point(updated, read);
                },
                ConfigItem::RpcBundlerUrl => {
                    updated.rpc_bundler_url = Some(value);
                },
            }
            ConfigEffect::Store(updated)
        },
        ConfigSubcommand::Unset { key } => {
            match key {
                ConfigItem::RpcNodeUrl => {
                    updated.rpc_node_url = None;
                },
                ConfigItem::EntryPointAddr => {
                    updated.entry_point_addr = None;
                },
                ConfigItem::RpcBundlerUrl => {
                    updated.rpc_bundler_url = None;
                },
            }
            ConfigEffect::Store(updated)
        },
    }
}

} // verus!
