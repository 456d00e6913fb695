//! Availability of the YuNet face detector and the path of its model, as
//! the detector stage asks for them. The caller reads the
//! `YUNET_MODEL_VARIANT` setting and caches the answers for the process.

use vstd::prelude::*;
use crate::model_config::{ModelVariant, get_resolved_model, is_model_available, is_default_candidate, variant_named, lowercase_text};

verus! {

/// Whether YuNet can be used: a model resolves for the setting.
pub fn is_yunet_available(setting: Option<&str>) -> (r: bool)
    ensures
        r ==> exists|v: ModelVariant, p: Seq<char>| #[trigger] is_default_candidate(v, p),
{
    is_model_available(setting)
}

/// Path of the resolved model, if one resolves for the setting.
pub fn find_model_path(setting: Option<&str>) -> (r: Option<String>)
    ensures
        r matches Some(p) ==> exists|v: ModelVariant| #[trigger] is_default_candidate(v, p@),
        setting matches Some(s) ==> (variant_named(lowercase_text(s@)) matches Some(pv) ==>
            (r matches Some(p) ==> is_default_candidate(pv, p@))),
{
    match get_resolved_model(setting) {
        Ok((v, p)) => {
            let r = Some(p);
            assert(is_default_candidate(v, r.unwrap()@));
            r
        },
        Err(_) => None,
    }
}

} // verus!
