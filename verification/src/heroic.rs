//! The decision part of resolving a launcher-managed game's wine prefix
//! from the launcher's per-game configuration. Reading the configuration
//! file and identifying the game's platform are the caller's concern; the
//! rules applied to what was read live here.

use vstd::prelude::*;

use crate::strutil::str_eq;

verus! {

/// The relative path of one game's configuration file under the
/// launcher's configuration directory.
pub fn path(id: &str) -> (r: String)
    ensures
        r@ == "GamesConfig/"@ + id@ + ".json"@,
{
    let mut s = String::from_str("GamesConfig/");
    s.append(id);
    s.append(".json");
    proof {
        assert(s@ =~= "GamesConfig/"@ + id@ + ".json"@);
    }
    s
}

/// The wine build a game runs under.
#[derive(Clone, Debug)]
pub struct Wine {
    pub wine_type: String,
}

/// One game's entry in the launcher's configuration: a wine configuration,
/// or some other shape, which is ignored.
#[derive(Clone, Debug)]
pub enum Game {
    Config { wine_prefix: String, wine_version: Wine },
    IgnoreOther,
}

/// The wine prefix a game's entry points at: the configured prefix itself
/// for a plain wine game, its `pfx` subdirectory for a proton game, and
/// nothing for any other wine type or entry shape.
pub fn find_prefix(game: &Game) -> (r: Option<String>)
    ensures
        match game {
            Game::Config { wine_prefix, wine_version } => if wine_version.wine_type@ == "wine"@ {
                r matches Some(p) && p@ == wine_prefix@
            } else if wine_version.wine_type@ == "proton"@ {
                r matches Some(p) && p@ == wine_prefix@ + "/pfx"@
            } else {
                r is None
            },
            Game::IgnoreOther => r is None,
        },
{
    match game {
        Game::Config { wine_prefix, wine_version } => {
            if str_eq(wine_version.wine_type.as_str(), "wine") {
                Some(wine_prefix.clone())
            } else if str_eq(wine_version.wine_type.as_str(), "proton") {
                let mut p = String::from_str(wine_prefix.as_str());
                p.append("/pfx");
                Some(p)
            } else {
                None
            }
        },
        Game::IgnoreOther => None,
    }
}

} // verus!
