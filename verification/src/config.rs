use vstd::prelude::*;

verus! {

/// Mathematical view of the provider credentials and targeting data.
pub ghost struct ApiModel {
    pub auth_email: Seq<char>,
    pub api_key: Seq<char>,
    pub zone_id: Seq<char>,
    pub dns_record_name: Seq<char>,
}

/// Provider credentials, the zone to work in and the record to keep
/// up to date.  Resolved once before the first cycle and never mutated.
pub struct CloudflareAPI {
    pub auth_email: String,
    pub api_key: String,
    pub zone_id: String,
    pub dns_record_name: String,
}

impl View for CloudflareAPI {
    type V = ApiModel;

    open spec fn view(&self) -> ApiModel {
        ApiModel {
            auth_email: self.auth_email@,
            api_key: self.api_key@,
            zone_id: self.zone_id@,
            dns_record_name: self.dns_record_name@,
        }
    }
}

/// Mathematical view of a resolved configuration.
pub ghost struct ConfigModel {
    pub cloudflare_api: ApiModel,
    pub cron: bool,
}

/// The fully resolved configuration the core needs: credentials plus the
/// run-mode flag (`cron == true` means single-shot, `cron == false` means
/// loop forever).
pub struct Config {
    pub cloudflare_api: CloudflareAPI,
    pub cron: bool,
}

impl View for Config {
    type V = ConfigModel;

    open spec fn view(&self) -> ConfigModel {
        ConfigModel { cloudflare_api: self.cloudflare_api@, cron: self.cron }
    }
}

} // verus!
