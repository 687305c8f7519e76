use vstd::prelude::*;

verus! {

pub open spec fn fqdn_of(label: Seq<char>, zone: Seq<char>) -> Seq<char> {
    if label == seq!['@'] {
        zone
    } else {
        label + seq!['.'] + zone
    }
}

/// The fully qualified name that a configured label stands for in a zone:
/// the zone itself for `@`, else the label, a dot and the zone.
pub fn fqdn(label: &str, zone: &str) -> (r: String)
    ensures
        r@ == fqdn_of(label@, zone@),
{
    if label.unicode_len() == 1 && label.get_char(0) == '@' {
        assert(label@ =~= seq!['@']);
        zone.to_owned()
    } else {
        let dot = String::from_str(".");
        proof {
            reveal_strlit(".");
        }
        let mut r = label.to_owned();
        r.append(dot.as_str());
        r.append(zone);
        r
    }
}

} // verus!
