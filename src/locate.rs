use vstd::prelude::*;
use vstd::string::*;

use crate::error::ConfigError;
use crate::platform::SupportedPlatform;

verus! {

/// The environment variables that decide where the configuration may live,
/// as read by the caller; `None` where a variable is unset.
pub struct Environment {
    pub xdg_config_home: Option<String>,
    pub home: Option<String>,
    pub appdata: Option<String>,
}

/// The candidates contributed by one optional directory: none when it is unset.
pub open spec fn group(dir: Option<String>, suffixes: Seq<Seq<char>>) -> Seq<Seq<char>> {
    match dir {
        Some(d) => suffixes.map_values(|s: Seq<char>| d@ + s),
        None => Seq::empty(),
    }
}

/// The candidate locations of the configuration file, most preferred first.
pub open spec fn candidates_of(platform: SupportedPlatform, env: Environment) -> Seq<Seq<char>> {
    match platform {
        SupportedPlatform::Unix =>
            group(env.xdg_config_home, seq!["/alacritty/alacritty.toml"@, "/alacritty.toml"@])
            + group(env.home, seq!["/.config/alacritty/alacritty.toml"@, "/.alacritty.toml"@]),
        SupportedPlatform::Windows =>
            group(env.appdata, seq!["\\alacritty\\alacritty.toml"@]),
    }
}

/// The views of a vector of strings.
pub open spec fn strings_view(v: Seq<String>) -> Seq<Seq<char>> {
    v.map_values(|s: String| s@)
}

fn push_joined(out: &mut Vec<String>, dir: &String, suffix: &str)
    ensures
        strings_view(final(out)@) == strings_view(old(out)@).push(dir@ + suffix@),
{
    let s = dir.clone().concat(suffix);
    out.push(s);
    proof {
        assert(strings_view(final(out)@) =~= strings_view(old(out)@).push(dir@ + suffix@));
    }
}

/// Lists the places where the configuration file may be, in the order in
/// which they are tried. An unset variable contributes no candidate.
pub fn config_candidates(platform: SupportedPlatform, env: &Environment) -> (r: Vec<String>)
    ensures
        strings_view(r@) == candidates_of(platform, *env),
{
    let mut out: Vec<String> = Vec::new();
    proof {
        assert(strings_view(out@) =~= Seq::<Seq<char>>::empty());
    }
    match platform {
        SupportedPlatform::Unix => {
            if let Some(x) = &env.xdg_config_home {
                push_joined(&mut out, x, "/alacritty/alacritty.toml");
                push_joined(&mut out, x, "/alacritty.toml");
            }
            if let Some(h) = &env.home {
                push_joined(&mut out, h, "/.config/alacritty/alacritty.toml");
                push_joined(&mut out, h, "/.alacritty.toml");
            }
            proof {
                assert(strings_view(out@) =~= candidates_of(platform, *env));
            }
        },
        SupportedPlatform::Windows => {
            if let Some(a) = &env.appdata {
                push_joined(&mut out, a, "\\alacritty\\alacritty.toml");
            }
            proof {
                assert(strings_view(out@) =~= candidates_of(platform, *env));
            }
        },
    }
    out
}

/// `i` is the first position at which `exists` holds.
pub open spec fn is_first_existing(exists: Seq<bool>, i: int) -> bool {
    &&& 0 <= i < exists.len()
    &&& exists[i]
    &&& forall|j: int| 0 <= j < i ==> !exists[j]
}

/// Picks the configuration file among `candidates`, where `exists[i]` tells
/// whether `candidates[i]` exists: the first existing one wins, and when none
/// exists the result is `NotFound`.
pub fn get_config_file_path(candidates: &Vec<String>, exists: &Vec<bool>) -> (r: Result<String, ConfigError>)
    requires
        exists@.len() == candidates@.len(),
    ensures
        r matches Ok(p) ==> exists|i: int| is_first_existing(exists@, i) && p@ == candidates@[i]@,
        r is Err ==> r == Err::<String, ConfigError>(ConfigError::NotFound),
        r is Err <==> forall|i: int| 0 <= i < exists@.len() ==> !exists@[i],
{
    let mut i: usize = 0;
    while i < candidates.len()
        invariant
            exists@.len() == candidates@.len(),
            i <= candidates@.len(),
            forall|j: int| 0 <= j < i ==> !exists@[j],
        decreases candidates@.len() - i,
    {
        if exists[i] {
            let p = candidates[i].clone();
            assert(is_first_existing(exists@, i as int));
            return Ok(p);
        }
        i += 1;
    }
    Err(ConfigError::NotFound)
}

} // verus!
