use exper_clap_config::cli::{CliArguments, CliOption};
use exper_clap_config::config_file::FileValues;
use exper_clap_config::configuration::{default_sell_to_asset, Configuration};

fn absent() -> CliOption {
    CliOption { value: None, explicit: false }
}

fn supplied(value: &str) -> CliOption {
    CliOption { value: Some(value.to_string()), explicit: true }
}

fn parser_default(value: &str) -> CliOption {
    CliOption { value: Some(value.to_string()), explicit: false }
}

fn no_overrides() -> CliArguments {
    CliArguments {
        api_key: absent(),
        secret_key: absent(),
        log_path: absent(),
        default_quote_asset: absent(),
    }
}

fn built_in() -> Configuration {
    Configuration {
        secret_key: String::new(),
        api_key: String::new(),
        log_path: None,
        default_quote_asset: "USD".to_string(),
    }
}

#[test]
fn default_quote_asset_is_usd() {
    assert_eq!(default_sell_to_asset(), "USD");
}

#[test]
fn default_configuration_is_built_in() {
    assert_eq!(Configuration::default(), built_in());
}

#[test]
fn no_file_and_no_overrides_gives_defaults() {
    assert_eq!(Configuration::new(None, &no_overrides()), built_in());
}

#[test]
fn parser_defaults_alone_give_defaults() {
    let cli = CliArguments {
        api_key: absent(),
        secret_key: absent(),
        log_path: absent(),
        default_quote_asset: parser_default("EUR"),
    };
    assert_eq!(Configuration::new(None, &cli), built_in());
}

#[test]
fn missing_file_keeps_overrides() {
    let cli = CliArguments {
        api_key: supplied("ak"),
        secret_key: absent(),
        log_path: supplied("data/log.txt"),
        default_quote_asset: absent(),
    };
    let config = Configuration::new(None, &cli);
    assert_eq!(
        config,
        Configuration {
            secret_key: String::new(),
            api_key: "ak".to_string(),
            log_path: Some("data/log.txt".to_string()),
            default_quote_asset: "USD".to_string(),
        }
    );
}

#[test]
fn file_values_replace_defaults() {
    let text = "API_KEY = \"fk\"\nlog_path = \"/var/log/client.log\"\n";
    let config = Configuration::new(Some(text), &no_overrides());
    assert_eq!(
        config,
        Configuration {
            secret_key: String::new(),
            api_key: "fk".to_string(),
            log_path: Some("/var/log/client.log".to_string()),
            default_quote_asset: "USD".to_string(),
        }
    );
}

#[test]
fn file_with_every_key() {
    let text =
        "SECRET_KEY = \"s\"\nAPI_KEY = \"a\"\nlog_path = \"l\"\ndefault_quote_asset = \"BTC\"\n";
    let config = Configuration::new(Some(text), &no_overrides());
    assert_eq!(
        config,
        Configuration {
            secret_key: "s".to_string(),
            api_key: "a".to_string(),
            log_path: Some("l".to_string()),
            default_quote_asset: "BTC".to_string(),
        }
    );
}

#[test]
fn empty_file_gives_defaults() {
    assert_eq!(Configuration::new(Some(""), &no_overrides()), built_in());
}

#[test]
fn unknown_keys_are_ignored() {
    let text = "API_KEY = \"fk\"\nretries = 3\n[keep]\nBTC = 1\n";
    let config = Configuration::new(Some(text), &no_overrides());
    assert_eq!(config.api_key, "fk");
    assert_eq!(config.secret_key, "");
    assert_eq!(config.log_path, None);
    assert_eq!(config.default_quote_asset, "USD");
}

#[test]
fn supplied_option_overrides_file() {
    let text =
        "SECRET_KEY = \"fs\"\nAPI_KEY = \"fk\"\nlog_path = \"fl\"\ndefault_quote_asset = \"EUR\"\n";
    let cli = CliArguments {
        api_key: supplied("ca"),
        secret_key: supplied("cs"),
        log_path: supplied("cl"),
        default_quote_asset: supplied("BTC"),
    };
    let config = Configuration::new(Some(text), &cli);
    assert_eq!(
        config,
        Configuration {
            secret_key: "cs".to_string(),
            api_key: "ca".to_string(),
            log_path: Some("cl".to_string()),
            default_quote_asset: "BTC".to_string(),
        }
    );
}

#[test]
fn supplied_empty_value_still_overrides() {
    let text = "API_KEY = \"fk\"\n";
    let mut cli = no_overrides();
    cli.api_key = supplied("");
    let config = Configuration::new(Some(text), &cli);
    assert_eq!(config.api_key, "");
}

#[test]
fn parser_default_does_not_override_file() {
    let text = "default_quote_asset = \"EUR\"\n";
    let mut cli = no_overrides();
    cli.default_quote_asset = parser_default("USD");
    let config = Configuration::new(Some(text), &cli);
    assert_eq!(config.default_quote_asset, "EUR");
}

#[test]
fn file_api_key_and_cli_secret_key() {
    let mut cli = no_overrides();
    cli.secret_key = supplied("sk");
    let config = Configuration::new(Some("API_KEY = \"fk\""), &cli);
    assert_eq!(config.api_key, "fk");
    assert_eq!(config.secret_key, "sk");
    assert_eq!(config.default_quote_asset, "USD");
    assert_eq!(config.log_path, None);
}

#[test]
fn unparsable_file_is_passed_over() {
    let mut cli = no_overrides();
    cli.api_key = supplied("ak");
    let config = Configuration::new(Some("API_KEY = = \"fk\""), &cli);
    assert_eq!(
        config,
        Configuration {
            secret_key: String::new(),
            api_key: "ak".to_string(),
            log_path: None,
            default_quote_asset: "USD".to_string(),
        }
    );
}

#[test]
fn file_with_a_key_of_the_wrong_kind_is_passed_over_whole() {
    let text = "SECRET_KEY = \"fs\"\nAPI_KEY = 5\n";
    assert_eq!(Configuration::new(Some(text), &no_overrides()), built_in());
}

#[test]
fn file_that_nests_too_deep_is_passed_over() {
    let text = format!("API_KEY = \"fk\"\ndeep = {}\n", "[".repeat(100_000));
    let mut cli = no_overrides();
    cli.secret_key = supplied("sk");
    let config = Configuration::new(Some(&text), &cli);
    assert_eq!(
        config,
        Configuration {
            secret_key: "sk".to_string(),
            api_key: String::new(),
            log_path: None,
            default_quote_asset: "USD".to_string(),
        }
    );
}

#[test]
fn file_full_of_dots_and_brackets_is_used() {
    let text = format!(
        "API_KEY = \"{}\" # {}\n[a]\n[b]\nrates = [0.1, 0.2, 0.3]\n",
        ".".repeat(300),
        "[".repeat(300)
    );
    let config = Configuration::new(Some(&text), &no_overrides());
    assert_eq!(config.api_key, ".".repeat(300));
}

#[test]
fn from_file_values_fills_in_defaults() {
    let values = FileValues {
        secret_key: Some("fs".to_string()),
        api_key: None,
        log_path: None,
        default_quote_asset: Some("EUR".to_string()),
    };
    assert_eq!(
        Configuration::from_file_values(values),
        Configuration {
            secret_key: "fs".to_string(),
            api_key: String::new(),
            log_path: None,
            default_quote_asset: "EUR".to_string(),
        }
    );
}

#[test]
fn update_config_replaces_supplied_fields_only() {
    let mut config = Configuration {
        secret_key: "s0".to_string(),
        api_key: "a0".to_string(),
        log_path: Some("l0".to_string()),
        default_quote_asset: "q0".to_string(),
    };
    let cli = CliArguments {
        api_key: supplied("a1"),
        secret_key: absent(),
        log_path: parser_default("l1"),
        default_quote_asset: supplied("q1"),
    };
    config.update_config(&cli);
    assert_eq!(
        config,
        Configuration {
            secret_key: "s0".to_string(),
            api_key: "a1".to_string(),
            log_path: Some("l0".to_string()),
            default_quote_asset: "q1".to_string(),
        }
    );
}

#[test]
fn update_config_with_nothing_supplied_changes_nothing() {
    let mut config = built_in();
    config.update_config(&no_overrides());
    assert_eq!(config, built_in());
}

#[test]
fn explicit_option_without_a_value_supplies_nothing() {
    let option = CliOption { value: None, explicit: true };
    assert_eq!(option.supplied_value(), None);
    let mut cli = no_overrides();
    cli.log_path = option;
    let mut config = built_in();
    config.log_path = Some("kept".to_string());
    config.update_config(&cli);
    assert_eq!(config.log_path, Some("kept".to_string()));
}

#[test]
fn supplied_value_follows_the_flag() {
    assert_eq!(supplied("v").supplied_value(), Some(&"v".to_string()));
    assert_eq!(parser_default("v").supplied_value(), None);
    assert_eq!(absent().supplied_value(), None);
}

#[test]
fn reported_option_on_the_command_line_is_explicit() {
    let option = CliOption::reported(Some("EUR".to_string()), 1, true);
    assert_eq!(option, supplied("EUR"));
}

#[test]
fn reported_option_from_the_parser_default_is_not_explicit() {
    let option = CliOption::reported(Some("USD".to_string()), 0, true);
    assert_eq!(option, parser_default("USD"));
}

#[test]
fn reported_option_without_parser_default_is_explicit() {
    let option = CliOption::reported(Some("from-env".to_string()), 0, false);
    assert_eq!(option, supplied("from-env"));
    let none = CliOption::reported(None, 0, false);
    assert_eq!(none.supplied_value(), None);
}
