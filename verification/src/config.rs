//! Application configuration.
//!
//! The runtime reads an optional configuration file and optional
//! environment overrides; the merge of those sources into the final
//! configuration is decided here.

use vstd::prelude::*;

verus! {

/// Configuration of the kiosk: remote endpoint, identity, and reader
/// wiring.
#[derive(Debug)]
pub struct AppConfig {
    /// Base URL of the remote service.
    pub api_url: String,
    /// Identifier this kiosk reports as `terminal_id`.
    pub device_id: String,
    /// SPI bus of the reader.
    pub spi_bus: u8,
    /// SPI slave select of the reader.
    pub spi_slave_select: u8,
    /// BCM number of the reader's reset pin.
    pub reset_pin: u8,
}

impl Clone for AppConfig {
    /// An exact copy of the configuration.
    fn clone(&self) -> (r: Self)
        ensures
            r == *self,
    {
        AppConfig {
            api_url: self.api_url.clone(),
            device_id: self.device_id.clone(),
            spi_bus: self.spi_bus,
            spi_slave_select: self.spi_slave_select,
            reset_pin: self.reset_pin,
        }
    }
}

impl Default for AppConfig {
    /// The built-in development configuration.
    fn default() -> (r: Self)
        ensures
            r.api_url@ == "http://localhost:8000/api"@,
            r.device_id@ == "pyreportal-dev"@,
            r.spi_bus == 0,
            r.spi_slave_select == 0,
            r.reset_pin == 25,
    {
        AppConfig {
            api_url: "http://localhost:8000/api".to_owned(),
            device_id: "pyreportal-dev".to_owned(),
            spi_bus: 0,
            spi_slave_select: 0,
            reset_pin: 25,
        }
    }
}

impl AppConfig {
    /// The configuration that results from an optional configuration
    /// file and optional environment overrides: a file wins outright;
    /// otherwise each override replaces its default field.
    pub fn resolve(
        file_config: Option<AppConfig>,
        env_api_url: Option<String>,
        env_device_id: Option<String>,
        env_spi_bus: Option<u8>,
        env_spi_slave_select: Option<u8>,
        env_reset_pin: Option<u8>,
    ) -> (r: AppConfig)
        ensures
            file_config matches Some(c) ==> r == c,
            file_config is None ==> {
                &&& r.api_url@ == (match env_api_url {
                    Some(u) => u@,
                    None => "http://localhost:8000/api"@,
                })
                &&& r.device_id@ == (match env_device_id {
                    Some(d) => d@,
                    None => "pyreportal-dev"@,
                })
                &&& r.spi_bus == (match env_spi_bus {
                    Some(b) => b,
                    None => 0u8,
                })
                &&& r.spi_slave_select == (match env_spi_slave_select {
                    Some(s) => s,
                    None => 0u8,
                })
                &&& r.reset_pin == (match env_reset_pin {
                    Some(p) => p,
                    None => 25u8,
                })
            },
    {
        match file_config {
            Some(c) => c,
            None => {
                let mut config = AppConfig::default();
                if let Some(u) = env_api_url {
                    config.api_url = u;
                }
                if let Some(d) = env_device_id {
                    config.device_id = d;
                }
                if let Some(b) = env_spi_bus {
                    config.spi_bus = b;
                }
                if let Some(s) = env_spi_slave_select {
                    config.spi_slave_select = s;
                }
                if let Some(p) = env_reset_pin {
                    config.reset_pin = p;
                }
                config
            },
        }
    }
}

} // verus!
