use clap::{App, Arg, ArgMatches, SubCommand};
use exper_clap_config::cli::{CliArguments, CliOption};
use exper_clap_config::configuration::Configuration;
use exper_clap_config::quantity::{buy_market, BuyMarket, Quantity};

fn parse(args: &[&str]) -> ArgMatches<'static> {
    App::new("client")
        .arg(Arg::with_name("config").short("c").long("config").takes_value(true))
        .arg(Arg::with_name("api-key").short("a").long("api-key").takes_value(true))
        .arg(Arg::with_name("secret-key").short("s").long("secret-key").takes_value(true))
        .arg(Arg::with_name("log-path").short("l").long("log-path").takes_value(true))
        .arg(
            Arg::with_name("default-quote-asset")
                .short("d")
                .long("default-quote-asset")
                .default_value("USD")
                .takes_value(true),
        )
        .subcommand(SubCommand::with_name("auto-sell"))
        .subcommand(
            SubCommand::with_name("buy-market")
                .arg(Arg::with_name("SYMBOL").required(true).index(1))
                .arg(Arg::with_name("QUANTITY").required(true).index(2)),
        )
        .get_matches_from_safe(args.iter().copied())
        .unwrap()
}

fn option(matches: &ArgMatches, name: &str, has_default: bool) -> CliOption {
    CliOption::reported(
        matches.value_of(name).map(str::to_string),
        matches.occurrences_of(name),
        has_default,
    )
}

fn arguments(matches: &ArgMatches) -> CliArguments {
    CliArguments {
        api_key: option(matches, "api-key", false),
        secret_key: option(matches, "secret-key", false),
        log_path: option(matches, "log-path", false),
        default_quote_asset: option(matches, "default-quote-asset", true),
    }
}

#[test]
fn bare_command_line_supplies_nothing() {
    let cli = arguments(&parse(&["client"]));
    assert_eq!(cli.default_quote_asset.value, Some("USD".to_string()));
    assert!(!cli.default_quote_asset.explicit);
    assert_eq!(Configuration::new(None, &cli), Configuration::default());
}

#[test]
fn secret_key_on_the_command_line_and_api_key_in_the_file() {
    let cli = arguments(&parse(&["client", "--secret-key", "sk"]));
    let config = Configuration::new(Some("API_KEY = \"fk\""), &cli);
    assert_eq!(
        config,
        Configuration {
            secret_key: "sk".to_string(),
            api_key: "fk".to_string(),
            log_path: None,
            default_quote_asset: "USD".to_string(),
        }
    );
}

#[test]
fn quote_asset_of_the_file_outlives_the_parser_default() {
    let cli = arguments(&parse(&["client"]));
    let config = Configuration::new(Some("default_quote_asset = \"EUR\""), &cli);
    assert_eq!(config.default_quote_asset, "EUR");
}

#[test]
fn quote_asset_on_the_command_line_overrides_the_file() {
    let cli = arguments(&parse(&["client", "-d", "BTC"]));
    let config = Configuration::new(Some("default_quote_asset = \"EUR\""), &cli);
    assert_eq!(config.default_quote_asset, "BTC");
}

#[test]
fn quote_asset_given_as_its_default_still_overrides_the_file() {
    let cli = arguments(&parse(&["client", "--default-quote-asset", "USD"]));
    let config = Configuration::new(Some("default_quote_asset = \"EUR\""), &cli);
    assert_eq!(config.default_quote_asset, "USD");
}

#[test]
fn short_options_override_every_field() {
    let cli = arguments(&parse(&["client", "-a", "ca", "-s", "cs", "-l", "cl", "-d", "cq"]));
    let text =
        "SECRET_KEY = \"fs\"\nAPI_KEY = \"fk\"\nlog_path = \"fl\"\ndefault_quote_asset = \"fq\"\n";
    assert_eq!(
        Configuration::new(Some(text), &cli),
        Configuration {
            secret_key: "cs".to_string(),
            api_key: "ca".to_string(),
            log_path: Some("cl".to_string()),
            default_quote_asset: "cq".to_string(),
        }
    );
}

#[test]
fn buy_market_without_a_file() {
    let matches = parse(&["client", "buy-market", "BTC", "0.01"]);
    let config = Configuration::new(None, &arguments(&matches));
    assert_eq!(config, Configuration::default());
    let command = matches.subcommand_matches("buy-market").unwrap();
    let order = buy_market(
        command.value_of("SYMBOL").unwrap(),
        command.value_of("QUANTITY").unwrap(),
    );
    assert_eq!(
        order,
        Ok(BuyMarket { symbol: "BTC".to_string(), quantity: Quantity { mantissa: 1, scale: 2 } })
    );
}
