use vstd::prelude::*;

use crate::config_chain::{first_found, new_empty_chain, ConfigRetrieverChain, ConfigRetrieverEmpty};
use crate::config_file::ConfigRetrieverFile;
use crate::config_service::{
    new_config_service_ref, required_of, ConfigRetriever, ConfigService, ConfigServiceRetriever,
};
use crate::errors::{AppError, AppResult, ErrorKind, ErrorView};
use crate::ms_oauth::MSOAuthService;
use crate::text::text_eq;
use crate::url_constants::AUTH_LOGIN_COMPLETE;

verus! {

/// The configuration service of the application: the secrets file, then the
/// configuration file.
pub type ConfigServiceRef = std::sync::Arc<
    ConfigServiceRetriever<
        ConfigRetrieverChain<
            ConfigRetrieverFile,
            ConfigRetrieverChain<ConfigRetrieverFile, ConfigRetrieverChain<ConfigRetrieverEmpty, ConfigRetrieverEmpty>>,
        >,
    >,
>;

/// Whether the application knows the environment.
pub open spec fn known_environment(environment: Seq<char>) -> bool {
    environment == "local"@ || environment == "dev"@
}

/// The configuration file and the secrets file of an environment, or the
/// error for an unknown environment.
pub fn config_file_paths(environment: &str) -> (res: AppResult<(String, String)>)
    ensures
        if known_environment(environment@) {
            res matches Ok(p)
                && p.0@ == "etc/config/"@ + environment@ + ".json"@
                && p.1@ == "etc/secrets/"@ + environment@ + ".json"@
        } else {
            res matches Err(e) && e@ == (ErrorKind::Configuration, "Unkonwn environment: "@ + environment@)
        },
{
    if text_eq(environment, "local") || text_eq(environment, "dev") {
        let mut config = String::from_str("etc/config/");
        config.append(environment);
        config.append(".json");
        let mut secrets = String::from_str("etc/secrets/");
        secrets.append(environment);
        secrets.append(".json");
        Ok((config, secrets))
    } else {
        let mut msg = String::from_str("Unkonwn environment: ");
        msg.append(environment);
        Err(AppError::ConfigurationError(msg))
    }
}

/// The configuration service over the configuration file and the secrets
/// file: a key set in the secrets file takes its value from there, any other
/// key from the configuration file.
pub fn create_config_service(config: ConfigRetrieverFile, secrets: ConfigRetrieverFile) -> (r: ConfigServiceRef)
    ensures
        forall|key: Seq<char>| #[trigger] r.configured(key)
            == first_found(secrets.retrieved(key), first_found(config.retrieved(key), Ok(None))),
{
    let chain = new_empty_chain().with(config).with(secrets);
    new_config_service_ref(ConfigServiceRetriever::new(chain))
}

/// The sign-in service as configured: application id, client secret and
/// tenant id read in turn; the first missing one is the error.
pub fn ms_oauth_service_from_config<C: ConfigService>(config: &C) -> (res: AppResult<MSOAuthService>)
    ensures
        match required_of(config.configured("ms_oauth_app_id"@), "ms_oauth_app_id"@) {
            Err(e) => res matches Err(err) && err@ == e,
            Ok(app_id) => match required_of(config.configured("ms_oauth_secret"@), "ms_oauth_secret"@) {
                Err(e) => res matches Err(err) && err@ == e,
                Ok(secret) => match required_of(config.configured("ms_oauth_tennant_id"@), "ms_oauth_tennant_id"@) {
                    Err(e) => res matches Err(err) && err@ == e,
                    Ok(tenant) => res matches Ok(s)
                        && s.app_id() == app_id
                        && s.client_secret() == secret
                        && s.tennant_id() == tenant
                        && s.callback_path() == AUTH_LOGIN_COMPLETE@,
                },
            },
        },
{
    let app_id = match config.get_required("ms_oauth_app_id") {
        Ok(v) => v,
        Err(e) => return Err(e),
    };
    let secret = match config.get_required("ms_oauth_secret") {
        Ok(v) => v,
        Err(e) => return Err(e),
    };
    let tenant = match config.get_required("ms_oauth_tennant_id") {
        Ok(v) => v,
        Err(e) => return Err(e),
    };
    Ok(MSOAuthService::new(app_id, secret, tenant, String::from_str(AUTH_LOGIN_COMPLETE)))
}

} // verus!
