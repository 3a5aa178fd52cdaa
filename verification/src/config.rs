//! The gateway's configuration model. Percentages are held in
//! hundredths of a percent so that a disposition draw in `[0, 10000)`
//! can be bucketed without fractions, and prices are held in cents.

use vstd::prelude::*;

verus! {

/// The gateway's whole configuration.
#[derive(Clone, Debug)]
pub struct Config {
    pub server: ServerConfig,
    pub smpp: SmppConfig,
    pub ussd: UssdConfig,
    pub client_simulator: ClientSimulatorConfig,
    pub logging: LoggingConfig,
    pub response_percentage: ResponsePercentageConfig,
}

/// Where the gateway listens.
#[derive(Clone, Debug)]
pub struct ServerConfig {
    pub host: String,
    pub port: u16,
}

/// The gateway's own SMPP identity and connection limits.
#[derive(Clone, Debug)]
pub struct SmppConfig {
    pub system_id: String,
    pub max_connections: u32,
    pub connection_timeout: u64,
}

/// The built-in USSD service: codes, menu and canned responses.
#[derive(Clone, Debug)]
pub struct UssdConfig {
    pub service_codes: Vec<String>,
    pub session_timeout: u64,
    pub menu: MenuConfig,
    pub responses: ResponsesConfig,
    pub data_packages: DataPackagesConfig,
}

/// The built-in menu's welcome line and option lines.
#[derive(Clone, Debug)]
pub struct MenuConfig {
    pub welcome_message: String,
    pub main_menu: Vec<String>,
}

/// The built-in canned responses.
#[derive(Clone, Debug)]
pub struct ResponsesConfig {
    pub balance_message: String,
    pub invalid_code: String,
    pub invalid_option: String,
    pub goodbye_message: String,
}

/// The data packages offered under the built-in menu.
#[derive(Clone, Debug)]
pub struct DataPackagesConfig {
    pub packages: Vec<DataPackage>,
}

/// One data package; the price is held in cents.
#[derive(Clone, Debug)]
pub struct DataPackage {
    pub name: String,
    pub price_cents: u64,
    pub data: String,
}

/// Logging switches; the library itself never writes a log.
#[derive(Clone, Debug)]
pub struct LoggingConfig {
    pub debug: bool,
    pub log_file: String,
}

/// Which bound system ids act as forwarding handlers and which as
/// simulated mobile users.
#[derive(Clone, Debug)]
pub struct ClientSimulatorConfig {
    pub enabled: bool,
    pub host: String,
    pub port: u16,
    pub system_id: String,
    pub password: String,
    pub forwarding_clients: Vec<String>,
    pub user_clients: Vec<String>,
}

/// The response disposition policy. The three shares are hundredths of
/// a percent: a draw in `[0, 10000)` falls to Success below
/// `success_percentage`, to Failure below the sum with
/// `failure_percentage`, and to NoResponse above both.
#[derive(Clone, Debug)]
pub struct ResponsePercentageConfig {
    pub success_percentage: u32,
    pub failure_percentage: u32,
    pub no_response_percentage: u32,
    pub failure_error_code: u32,
    pub no_response_delay_ms: u64,
}

impl Default for Config {
    /// The stock configuration: one `*123#` service code, the telecom
    /// demo menu, three data packages, and a 95/4/1 disposition split.
    fn default() -> (r: Config)
        ensures
            r.ussd.service_codes@.len() == 1,
            r.ussd.service_codes@[0]@ == "*123#"@,
            r.ussd.menu.welcome_message@ == "Welcome to MyTelecom USSD Service"@,
            r.ussd.menu.main_menu@.len() == 4,
            r.ussd.menu.main_menu@[0]@ == "1. Balance Inquiry"@,
            r.ussd.menu.main_menu@[1]@ == "2. Data Packages"@,
            r.ussd.menu.main_menu@[2]@ == "3. Customer Service"@,
            r.ussd.menu.main_menu@[3]@ == "0. Exit"@,
            r.ussd.responses.balance_message@
                == "Your current balance is $25.50\nYour data balance is 2.5GB"@,
            r.ussd.responses.invalid_code@ == "Invalid USSD code. Please try again."@,
            r.ussd.responses.invalid_option@ == "Invalid option. Please try again."@,
            r.ussd.responses.goodbye_message@
                == "Thank you for using MyTelecom USSD Service. Goodbye!"@,
            r.ussd.data_packages.packages@.len() == 3,
            r.ussd.data_packages.packages@[0].name@ == "1GB Package"@,
            r.ussd.data_packages.packages@[0].price_cents == 1000,
            r.ussd.data_packages.packages@[0].data@ == "1GB"@,
            r.ussd.data_packages.packages@[1].name@ == "5GB Package"@,
            r.ussd.data_packages.packages@[1].price_cents == 4000,
            r.ussd.data_packages.packages@[1].data@ == "5GB"@,
            r.ussd.data_packages.packages@[2].name@ == "10GB Package"@,
            r.ussd.data_packages.packages@[2].price_cents == 7000,
            r.ussd.data_packages.packages@[2].data@ == "10GB"@,
            r.ussd.session_timeout == 180,
            r.smpp.system_id@ == "USSDGateway"@,
            r.client_simulator.forwarding_clients@.len() == 2,
            r.client_simulator.forwarding_clients@[0]@ == "ForwardingClient"@,
            r.client_simulator.forwarding_clients@[1]@ == "JavaClient"@,
            r.client_simulator.user_clients@.len() == 1,
            r.client_simulator.user_clients@[0]@ == "USSDMobileUser"@,
            r.response_percentage.success_percentage == 9500,
            r.response_percentage.failure_percentage == 400,
            r.response_percentage.no_response_percentage == 100,
            r.response_percentage.failure_error_code == 0x00000008,
            r.response_percentage.no_response_delay_ms == 5000,
    {
        let mut service_codes: Vec<String> = Vec::new();
        service_codes.push(String::from_str("*123#"));
        let mut main_menu: Vec<String> = Vec::new();
        main_menu.push(String::from_str("1. Balance Inquiry"));
        main_menu.push(String::from_str("2. Data Packages"));
        main_menu.push(String::from_str("3. Customer Service"));
        main_menu.push(String::from_str("0. Exit"));
        let mut packages: Vec<DataPackage> = Vec::new();
        packages.push(
            DataPackage {
                name: String::from_str("1GB Package"),
                price_cents: 1000,
                data: String::from_str("1GB"),
            },
        );
        packages.push(
            DataPackage {
                name: String::from_str("5GB Package"),
                price_cents: 4000,
                data: String::from_str("5GB"),
            },
        );
        packages.push(
            DataPackage {
                name: String::from_str("10GB Package"),
                price_cents: 7000,
                data: String::from_str("10GB"),
            },
        );
        let mut forwarding_clients: Vec<String> = Vec::new();
        forwarding_clients.push(String::from_str("ForwardingClient"));
        forwarding_clients.push(String::from_str("JavaClient"));
        let mut user_clients: Vec<String> = Vec::new();
        user_clients.push(String::from_str("USSDMobileUser"));
        Config {
            server: ServerConfig { host: String::from_str("127.0.0.1"), port: 2775 },
            smpp: SmppConfig {
                system_id: String::from_str("USSDGateway"),
                max_connections: 100,
                connection_timeout: 300,
            },
            ussd: UssdConfig {
                service_codes,
                session_timeout: 180,
                menu: MenuConfig {
                    welcome_message: String::from_str("Welcome to MyTelecom USSD Service"),
                    main_menu,
                },
                responses: ResponsesConfig {
                    balance_message: String::from_str(
                        "Your current balance is $25.50\nYour data balance is 2.5GB",
                    ),
                    invalid_code: String::from_str("Invalid USSD code. Please try again."),
                    invalid_option: String::from_str("Invalid option. Please try again."),
                    goodbye_message: String::from_str(
                        "Thank you for using MyTelecom USSD Service. Goodbye!",
                    ),
                },
                data_packages: DataPackagesConfig { packages },
            },
            client_simulator: ClientSimulatorConfig {
                enabled: false,
                host: String::from_str("127.0.0.1"),
                port: 9090,
                system_id: String::from_str("USSDClient"),
                password: String::from_str("password123"),
                forwarding_clients,
                user_clients,
            },
            logging: LoggingConfig { debug: false, log_file: String::new() },
            response_percentage: ResponsePercentageConfig {
                success_percentage: 9500,
                failure_percentage: 400,
                no_response_percentage: 100,
                failure_error_code: 0x00000008,
                no_response_delay_ms: 5000,
            },
        }
    }
}

} // verus!
