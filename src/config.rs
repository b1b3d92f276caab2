//! Application settings and the paths derived from them.
use vstd::prelude::*;
use crate::text::{chars_of, last_before, rfind_before, trim, trim_spec};
use crate::types::RunMode;
use crate::actors::str_eq;

verus! {

#[derive(Clone, Debug)]
pub struct AppConfig {
    pub runtime: RuntimeConfig,
    pub secrets: SecretsConfig,
    pub paths: PathsConfig,
}

#[derive(Clone, Debug)]
pub struct RuntimeConfig {
    pub default_mode: RunMode,
    pub show_debug_default: bool,
    pub no_turn_timeout: bool,
}

#[derive(Clone, Debug)]
pub struct SecretsConfig {
    pub local_openai_api_key: String,
}

#[derive(Clone, Debug)]
pub struct PathsConfig {
    pub campaign_root: String,
    pub codex_local_config: String,
    pub codex_runtime_home: String,
    pub schema_dir: String,
}

/// The configured locations, each resolved against the directory of the config file.
#[derive(Clone, Debug)]
pub struct ResolvedPaths {
    pub app_root: String,
    pub campaign_root: String,
    pub codex_local_config: String,
    pub codex_runtime_home: String,
    pub schema_dir: String,
}

/// The placeholder key that early configuration templates carried.
pub const LEGACY_PLACEHOLDER_KEY: &'static str = "replace-me-local-key";

/// The key that a local agent endpoint is given by default.
pub const DEFAULT_LOCAL_KEY: &'static str = "sx-xxx";

pub open spec fn is_default_config(c: AppConfig) -> bool {
    &&& c.runtime.default_mode == RunMode::Local
    &&& !c.runtime.show_debug_default
    &&& c.runtime.no_turn_timeout
    &&& c.secrets.local_openai_api_key@ == DEFAULT_LOCAL_KEY@
    &&& c.paths.campaign_root@ == "data/campaigns"@
    &&& c.paths.codex_local_config@ == "local-config.toml"@
    &&& c.paths.codex_runtime_home@ == ".runtime/codex-local-home"@
    &&& c.paths.schema_dir@ == "schemas"@
}

impl Default for AppConfig {
    fn default() -> (r: Self)
        ensures
            is_default_config(r),
    {
        AppConfig {
            runtime: RuntimeConfig {
                default_mode: RunMode::Local,
                show_debug_default: false,
                no_turn_timeout: true,
            },
            secrets: SecretsConfig { local_openai_api_key: String::from_str(DEFAULT_LOCAL_KEY) },
            paths: PathsConfig {
                campaign_root: String::from_str("data/campaigns"),
                codex_local_config: String::from_str("local-config.toml"),
                codex_runtime_home: String::from_str(".runtime/codex-local-home"),
                schema_dir: String::from_str("schemas"),
            },
        }
    }
}

/// The directory that holds `p`: what precedes its last `/` (the root itself for a
/// top-level entry), empty for a bare file name, and `.` for an empty path.
pub open spec fn parent_spec(p: Seq<char>) -> Seq<char> {
    let k = last_before(p, '/', p.len() as int);
    if p.len() == 0 {
        "."@
    } else if k < 0 {
        Seq::empty()
    } else if k == 0 {
        "/"@
    } else {
        p.subrange(0, k)
    }
}

/// `rel` placed under `base`; an absolute `rel` stands for itself.
pub open spec fn join_spec(base: Seq<char>, rel: Seq<char>) -> Seq<char> {
    if rel.len() > 0 && rel[0] == '/' {
        rel
    } else if base.len() == 0 {
        rel
    } else if base.last() == '/' {
        base + rel
    } else {
        base + "/"@ + rel
    }
}

pub fn parent_dir(p: &str) -> (r: String)
    ensures
        r@ == parent_spec(p@),
{
    let v = chars_of(p);
    if v.len() == 0 {
        return String::from_str(".");
    }
    match rfind_before(&v, '/', v.len()) {
        None => String::new(),
        Some(k) => {
            if k == 0 {
                String::from_str("/")
            } else {
                let s = p.substring_char(0, k);
                String::from_str(s)
            }
        },
    }
}

pub fn join_path(base: &str, rel: &str) -> (r: String)
    ensures
        r@ == join_spec(base@, rel@),
{
    let rl = rel.unicode_len();
    if rl > 0 && rel.get_char(0) == '/' {
        return String::from_str(rel);
    }
    let bl = base.unicode_len();
    if bl == 0 {
        return String::from_str(rel);
    }
    let mut out = String::from_str(base);
    if base.get_char(bl - 1) != '/' {
        out.append("/");
    }
    out.append(rel);
    out
}

impl AppConfig {
    /// Every configured location, placed under the directory of the config file.
    pub fn resolve_paths(&self, config_path: &str) -> (r: Result<ResolvedPaths, ConfigError>)
        ensures
            r is Ok,
            r is Ok ==> ({
                let rp = r->Ok_0;
                let root = parent_spec(config_path@);
                &&& rp.app_root@ == root
                &&& rp.campaign_root@ == join_spec(root, self.paths.campaign_root@)
                &&& rp.codex_local_config@ == join_spec(root, self.paths.codex_local_config@)
                &&& rp.codex_runtime_home@ == join_spec(root, self.paths.codex_runtime_home@)
                &&& rp.schema_dir@ == join_spec(root, self.paths.schema_dir@)
            }),
    {
        let app_root = parent_dir(config_path);
        let campaign_root = join_path(app_root.as_str(), self.paths.campaign_root.as_str());
        let codex_local_config = join_path(
            app_root.as_str(),
            self.paths.codex_local_config.as_str(),
        );
        let codex_runtime_home = join_path(
            app_root.as_str(),
            self.paths.codex_runtime_home.as_str(),
        );
        let schema_dir = join_path(app_root.as_str(), self.paths.schema_dir.as_str());
        Ok(ResolvedPaths {
            app_root,
            campaign_root,
            codex_local_config,
            codex_runtime_home,
            schema_dir,
        })
    }
}

#[derive(Debug, PartialEq, Eq, Structural)]
pub enum ConfigError {
    /// The design requires that no per-turn timeout is ever enforced.
    TurnTimeoutNotAllowed,
}

/// Replaces the legacy placeholder key with the default one; says whether it did.
pub fn migrate_config(cfg: &mut AppConfig) -> (changed: bool)
    ensures
        changed == (trim_spec(old(cfg).secrets.local_openai_api_key@) == LEGACY_PLACEHOLDER_KEY@),
        changed ==> final(cfg).secrets.local_openai_api_key@ == DEFAULT_LOCAL_KEY@,
        !changed ==> final(cfg).secrets.local_openai_api_key == old(cfg).secrets.local_openai_api_key,
        final(cfg).runtime == old(cfg).runtime,
        final(cfg).paths == old(cfg).paths,
{
    let t = trim(cfg.secrets.local_openai_api_key.as_str());
    if str_eq(t.as_str(), LEGACY_PLACEHOLDER_KEY) {
        cfg.secrets.local_openai_api_key = String::from_str(DEFAULT_LOCAL_KEY);
        true
    } else {
        false
    }
}

/// A loaded configuration is accepted only with the per-turn timeout switched off.
pub fn validate_config(cfg: &AppConfig) -> (r: Result<(), ConfigError>)
    ensures
        r is Ok <==> cfg.runtime.no_turn_timeout,
        r is Err ==> r->Err_0 == ConfigError::TurnTimeoutNotAllowed,
{
    if cfg.runtime.no_turn_timeout {
        Ok(())
    } else {
        Err(ConfigError::TurnTimeoutNotAllowed)
    }
}

} // verus!
