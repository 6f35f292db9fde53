use userop_encoder::config::{
    run_config_command, Config, ConfigEffect, ConfigFile, ConfigItem, ConfigSubcommand,
    ConfigValue, SettingNotSpecifiedError,
};
use userop_encoder::primitives::Address;

fn nothing() -> ConfigFile {
    ConfigFile { rpc_node_url: None, rpc_bundler_url: None, entry_point_addr: None }
}

fn stored() -> ConfigFile {
    ConfigFile {
        rpc_node_url: Some("http://node".to_string()),
        rpc_bundler_url: Some("http://bundler".to_string()),
        entry_point_addr: Some(Address::new([0x71; 20])),
    }
}

#[test]
fn command_line_goes_before_the_profile() {
    let command_line = ConfigFile {
        rpc_node_url: Some("http://cli-node".to_string()),
        rpc_bundler_url: Some("http://cli-bundler".to_string()),
        entry_point_addr: Some(Address::new([0x72; 20])),
    };
    let config = Config::new("default".to_string(), command_line, stored());
    assert_eq!(config.profile, "default");
    assert_eq!(config.get_rpc_node_url(), Ok("http://cli-node"));
    assert_eq!(config.get_rpc_bundler_url(), Ok("http://cli-bundler"));
    assert_eq!(config.get_entry_point_addr(), Ok(&Address::new([0x72; 20])));
}

#[test]
fn profile_fills_what_the_command_line_leaves_out() {
    let config = Config::new("p".to_string(), nothing(), stored());
    assert_eq!(config.get_rpc_node_url(), Ok("http://node"));
    assert_eq!(config.get_rpc_bundler_url(), Ok("http://bundler"));
    assert_eq!(config.get_entry_point_addr(), Ok(&Address::new([0x71; 20])));
}

#[test]
fn bundler_stands_in_for_a_missing_node() {
    let mut profile = stored();
    profile.rpc_node_url = None;
    let config = Config::new("p".to_string(), nothing(), profile);
    assert_eq!(config.get_rpc_node_url(), Ok("http://bundler"));
    let mut command_line = nothing();
    command_line.rpc_bundler_url = Some("http://cli-bundler".to_string());
    let config = Config::new("p".to_string(), command_line, nothing());
    assert_eq!(config.get_rpc_node_url(), Err(SettingNotSpecifiedError::RpcNodeUrl));
    assert_eq!(config.get_rpc_bundler_url(), Ok("http://cli-bundler"));
}

#[test]
fn missing_settings_are_named() {
    let config = Config::new("p".to_string(), nothing(), nothing());
    assert_eq!(config.get_rpc_node_url(), Err(SettingNotSpecifiedError::RpcNodeUrl));
    assert_eq!(config.get_rpc_bundler_url(), Err(SettingNotSpecifiedError::RpcBundlerUrl));
    assert_eq!(config.get_entry_point_addr(), Err(SettingNotSpecifiedError::EntryPointAddr));
    assert_eq!(
        SettingNotSpecifiedError::RpcNodeUrl.message(),
        "rpc-node-url is not specified, check your profile settings"
    );
    assert_eq!(
        SettingNotSpecifiedError::RpcBundlerUrl.message(),
        "rpc-bundler-url is not specified, check your profile settings"
    );
    assert_eq!(
        SettingNotSpecifiedError::EntryPointAddr.message(),
        "entry-point-addr is not specified, check your profile settings"
    );
}

#[test]
fn get_shows_one_setting_or_all() {
    match run_config_command(stored(), ConfigSubcommand::Get { key: Some(ConfigItem::RpcNodeUrl) }) {
        ConfigEffect::ShowItem(ConfigItem::RpcNodeUrl, ConfigValue::Url(url)) => {
            assert_eq!(url.as_deref(), Some("http://node"))
        }
        other => panic!("unexpected effect: {:?}", other),
    }
    match run_config_command(
        stored(),
        ConfigSubcommand::Get { key: Some(ConfigItem::RpcBundlerUrl) },
    ) {
        ConfigEffect::ShowItem(ConfigItem::RpcBundlerUrl, ConfigValue::Url(url)) => {
            assert_eq!(url.as_deref(), Some("http://bundler"))
        }
        other => panic!("unexpected effect: {:?}", other),
    }
    match run_config_command(
        stored(),
        ConfigSubcommand::Get { key: Some(ConfigItem::EntryPointAddr) },
    ) {
        ConfigEffect::ShowItem(ConfigItem::EntryPointAddr, ConfigValue::Address(address)) => {
            assert_eq!(address, Some(Address::new([0x71; 20])))
        }
        other => panic!("unexpected effect: {:?}", other),
    }
    match run_config_command(stored(), ConfigSubcommand::Get { key: None }) {
        ConfigEffect::ShowAll(all) => {
            assert_eq!(all.rpc_node_url.as_deref(), Some("http://node"));
            assert_eq!(all.rpc_bundler_url.as_deref(), Some("http://bundler"));
            assert_eq!(all.entry_point_addr, Some(Address::new([0x71; 20])));
        }
        other => panic!("unexpected effect: {:?}", other),
    }
}

#[test]
fn assigning_a_url_stores_it() {
    let command =
        ConfigSubcommand::Assign { key: ConfigItem::RpcBundlerUrl, value: "http://new".to_string() };
    match run_config_command(stored(), command) {
        ConfigEffect::Store(updated) => {
            assert_eq!(updated.rpc_bundler_url.as_deref(), Some("http://new"));
            assert_eq!(updated.rpc_node_url.as_deref(), Some("http://node"));
            assert_eq!(updated.entry_point_addr, Some(Address::new([0x71; 20])));
        }
        other => panic!("unexpected effect: {:?}", other),
    }
}

#[test]
fn assigning_an_entry_point_reads_the_address() {
    let command = ConfigSubcommand::Assign {
        key: ConfigItem::EntryPointAddr,
        value: "0x0000000071727De22E5E9d8BAf0edAc6f37da032".to_string(),
    };
    match run_config_command(nothing(), command) {
        ConfigEffect::Store(updated) => {
            let expected = hex::decode("0000000071727De22E5E9d8BAf0edAc6f37da032").unwrap();
            assert_eq!(updated.entry_point_addr.unwrap().bytes.to_vec(), expected);
            assert_eq!(updated.rpc_node_url, None);
        }
        other => panic!("unexpected effect: {:?}", other),
    }
}

#[test]
fn text_that_is_no_address_stores_nothing() {
    for text in ["", "0x1234", "not an address", "0x00000000717z7De22E5E9d8BAf0edAc6f37da032"] {
        let command =
            ConfigSubcommand::Assign { key: ConfigItem::EntryPointAddr, value: text.to_string() };
        assert!(matches!(run_config_command(stored(), command), ConfigEffect::InvalidAddress));
    }
}

#[test]
fn unset_removes_one_setting() {
    match run_config_command(stored(), ConfigSubcommand::Unset { key: ConfigItem::RpcNodeUrl }) {
        ConfigEffect::Store(updated) => {
            assert_eq!(updated.rpc_node_url, None);
            assert_eq!(updated.rpc_bundler_url.as_deref(), Some("http://bundler"));
            assert_eq!(updated.entry_point_addr, Some(Address::new([0x71; 20])));
        }
        other => panic!("unexpected effect: {:?}", other),
    }
    match run_config_command(stored(), ConfigSubcommand::Unset { key: ConfigItem::EntryPointAddr })
    {
        ConfigEffect::Store(updated) => {
            assert_eq!(updated.entry_point_addr, None);
            assert_eq!(updated.rpc_node_url.as_deref(), Some("http://node"));
        }
        other => panic!("unexpected effect: {:?}", other),
    }
    match run_config_command(stored(), ConfigSubcommand::Unset { key: ConfigItem::RpcBundlerUrl }) {
        ConfigEffect::Store(updated) => {
            assert_eq!(updated.rpc_bundler_url, None);
            assert_eq!(updated.rpc_node_url.as_deref(), Some("http://node"));
        }
        other => panic!("unexpected effect: {:?}", other),
    }
}
