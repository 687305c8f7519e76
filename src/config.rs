use vstd::prelude::*;

verus! {

/// The record labels configured under one zone, in configuration order;
/// a label may occur more than once.
#[derive(Clone, Debug)]
pub struct ZoneRecords {
    pub zone: String,
    pub labels: Vec<String>,
}

/// The parsed configuration: the provider credential and, in configuration
/// order, each zone with its record labels.
#[derive(Clone, Debug)]
pub struct Config {
    pub api_token: String,
    pub records: Vec<ZoneRecords>,
}

pub open spec fn dashed(s: Seq<char>) -> Seq<char> {
    s.map_values(|c: char| if c == '_' { '-' } else { c })
}

/// The program's name as used for its configuration directory and file: the
/// package name with every underscore turned into a dash.
pub fn cargo_name(package: &str) -> (r: String)
    ensures
        r@ == dashed(package@),
{
    let n = package.unicode_len();
    let dash = String::from_str("-");
    proof {
        reveal_strlit("-");
    }
    let mut r = String::new();
    let mut i: usize = 0;
    while i < n
        invariant
            i <= n,
            n == package@.len(),
            dash@ == seq!['-'],
            r@ == dashed(package@.subrange(0, i as int)),
        decreases n - i,
    {
        let piece = package.substring_char(i, i + 1);
        if package.get_char(i) == '_' {
            r.append(dash.as_str());
        } else {
            r.append(piece);
        }
        assert(package@.subrange(0, i + 1) =~= package@.subrange(0, i as int).push(package@[i as int]));
        assert(dashed(package@.subrange(0, i + 1)) =~= dashed(package@.subrange(0, i as int)).push(
            if package@[i as int] == '_' { '-' } else { package@[i as int] },
        ));
        i = i + 1;
    }
    assert(package@.subrange(0, n as int) =~= package@);
    r
}

/// The name of the configuration file for a program name: the name followed by `.toml`.
pub fn config_file_name(name: &str) -> (r: String)
    ensures
        r@ == name@ + seq!['.', 't', 'o', 'm', 'l'],
{
    let ext = String::from_str(".toml");
    proof {
        reveal_strlit(".toml");
    }
    let mut r = name.to_owned();
    r.append(ext.as_str());
    r
}

} // verus!
