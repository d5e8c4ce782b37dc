use vstd::prelude::*;

verus! {

/// The Wi-Fi network to connect to, as the build reads it from `cfg.toml`. A key that the
/// file leaves out is empty.
#[derive(Debug, Clone, Copy)]
pub struct Config {
    pub wifi_ssid: &'static str,
    pub wifi_psk: &'static str,
}

impl Default for Config {
    fn default() -> (r: Self)
        ensures
            r.wifi_ssid@.len() == 0,
            r.wifi_psk@.len() == 0,
    {
        proof {
            reveal_strlit("");
        }
        Config { wifi_ssid: "", wifi_psk: "" }
    }
}

impl Config {
    /// The build's check of the credentials: both the network name and the password must
    /// be set.
    pub fn check_credentials(&self) -> (r: Result<(), &'static str>)
        ensures
            match r {
                Ok(()) => self.wifi_ssid@.len() > 0 && self.wifi_psk@.len() > 0,
                Err(e) => {
                    &&& (self.wifi_ssid@.len() == 0 || self.wifi_psk@.len() == 0)
                    &&& e@ == "You need to set the Wi-Fi credentials in `cfg.toml`!"@
                },
            },
    {
        if self.wifi_ssid.is_empty() || self.wifi_psk.is_empty() {
            return Err("You need to set the Wi-Fi credentials in `cfg.toml`!");
        }
        Ok(())
    }
}

} // verus!
