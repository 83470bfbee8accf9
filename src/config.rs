use vstd::prelude::*;
use crate::paths::{PathEnv, expand_path, expanded, join_path, joined};

verus! {

/// Where the repository of managed files lives.
pub struct DotfilesConfig {
    /// Path template of the repository root.
    pub repo_path: String,
}

/// One managed file as it is configured.
pub struct ConfigEntry {
    /// Unique name of the entry.
    pub name: String,
    /// Free-form grouping label.
    pub category: String,
    /// Path of the repository copy, relative to the repository root.
    pub repo_path: String,
    /// Path template of the system copy.
    pub system_path: String,
}

/// The whole configuration.
pub struct TronConfig {
    pub dotfiles: DotfilesConfig,
    pub config: Vec<ConfigEntry>,
}

/// One managed file with both of its paths made concrete.
pub struct ResolvedConfig {
    pub name: String,
    pub category: String,
    pub repo_path: String,
    pub system_path: String,
}

/// The directory-token expansion of a template under `env`.
pub open spec fn expanded_in(t: Seq<char>, env: &PathEnv) -> Seq<char> {
    expanded(t, env.home@, env.roaming@, env.local@)
}

/// Whether `r` is `e` resolved against the repository root `root` under `env`.
pub open spec fn resolves_to(e: &ConfigEntry, root: Seq<char>, env: &PathEnv, r: &ResolvedConfig) -> bool {
    &&& r.name@ == e.name@
    &&& r.category@ == e.category@
    &&& r.repo_path@ == joined(root, e.repo_path@, env.separator@)
    &&& r.system_path@ == expanded_in(e.system_path@, env)
}

/// Resolves every configured entry, in order: the repository path is joined
/// to the expanded repository root, the system path is expanded.
pub fn resolve_configs(config: &TronConfig, env: &PathEnv) -> (r: Vec<ResolvedConfig>)
    ensures
        r@.len() == config.config@.len(),
        forall|i: int|
            0 <= i < r@.len() ==> resolves_to(
                &config.config@[i],
                expanded_in(config.dotfiles.repo_path@, env),
                env,
                #[trigger] &r@[i],
            ),
{
    let root = expand_path(config.dotfiles.repo_path.as_str(), env);
    let mut out: Vec<ResolvedConfig> = Vec::new();
    let mut i: usize = 0;
    while i < config.config.len()
        invariant
            i <= config.config@.len(),
            out@.len() == i,
            root@ == expanded_in(config.dotfiles.repo_path@, env),
            forall|k: int|
                0 <= k < i ==> resolves_to(&config.config@[k], root@, env, #[trigger] &out@[k]),
        decreases config.config@.len() - i,
    {
        let e = &config.config[i];
        out.push(
            ResolvedConfig {
                name: e.name.clone(),
                category: e.category.clone(),
                repo_path: join_path(root.as_str(), e.repo_path.as_str(), env.separator.as_str()),
                system_path: expand_path(e.system_path.as_str(), env),
            },
        );
        i = i + 1;
    }
    out
}

} // verus!
