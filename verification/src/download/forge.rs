//! Where the documents of the mod-loader distribution are fetched from.

use vstd::prelude::*;
use crate::text::concat;

verus! {

/// Where the coordinate listing is fetched from, unless configured otherwise.
pub fn default_maven_url() -> (r: String)
    ensures
        r@ == "https://files.minecraftforge.net/net/minecraftforge/forge/maven-metadata.json"@,
{
    "https://files.minecraftforge.net/net/minecraftforge/forge/maven-metadata.json".to_owned()
}

/// Where the promotions are fetched from, unless configured otherwise.
pub fn default_promotions_url() -> (r: String)
    ensures
        r@ == "https://files.minecraftforge.net/net/minecraftforge/forge/promotions_slim.json"@,
{
    "https://files.minecraftforge.net/net/minecraftforge/forge/promotions_slim.json".to_owned()
}

/// Where the file manifest of the build `long_version` is fetched from.
pub fn files_manifest_url(long_version: &str) -> (r: String)
    ensures
        r@ == "https://files.minecraftforge.net/net/minecraftforge/forge/"@ + long_version@
            + "/meta.json"@,
{
    let mut r = concat("https://files.minecraftforge.net/net/minecraftforge/forge/", long_version);
    r.append("/meta.json");
    r
}

} // verus!
