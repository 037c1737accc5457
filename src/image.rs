use vstd::prelude::*;
use std::collections::BTreeMap;
use crate::error::{ClientError, ErrorKind};

verus! {

/// One layer of an image: its bytes, media type and annotations.
#[derive(Debug, Clone, PartialEq, Eq)]
pub struct NapiImageLayer {
    pub data: Vec<u8>,
    pub media_type: String,
    pub annotations: Option<BTreeMap<String, String>>,
}

/// The config blob of an image: its bytes, media type and annotations.
#[derive(Debug, Clone, PartialEq, Eq)]
pub struct NapiConfig {
    pub data: Vec<u8>,
    pub media_type: String,
    pub annotations: Option<BTreeMap<String, String>>,
}

/// Everything needed to materialise an image.
#[derive(Debug, Clone, PartialEq, Eq)]
pub struct NapiImageData {
    pub layers: Vec<NapiImageLayer>,
    pub digest: Option<String>,
    pub config: Option<NapiConfig>,
}

/// The locations a registry gave to a pushed image.
#[derive(Debug, Clone, PartialEq, Eq)]
pub struct NapiPushResponse {
    pub config_url: String,
    pub manifest_url: String,
}

/// Whether `t` is one of the accepted media types.
pub open spec fn is_accepted(accepted: Seq<String>, t: Seq<char>) -> bool {
    exists|j: int| 0 <= j < accepted.len() && (#[trigger] accepted[j])@ == t
}

/// Whether every layer's media type is accepted.
pub open spec fn all_accepted(media_types: Seq<String>, accepted: Seq<String>) -> bool {
    forall|i: int| 0 <= i < media_types.len() ==> is_accepted(accepted, (#[trigger] media_types[i])@)
}

fn accepts(accepted: &Vec<String>, t: &String) -> (r: bool)
    ensures
        r == is_accepted(accepted@, t@),
{
    let mut j: usize = 0;
    while j < accepted.len()
        invariant
            j <= accepted@.len(),
            forall|k: int| 0 <= k < j ==> (#[trigger] accepted@[k])@ != t@,
        decreases accepted@.len() - j,
    {
        if accepted[j].eq(t) {
            return true;
        }
        j = j + 1;
    }
    false
}

/// Checks the layers of a manifest before any of them is fetched: there must
/// be at least one, and each must have an accepted media type.
pub fn check_layers(media_types: &Vec<String>, accepted: &Vec<String>) -> (r: Result<(), ClientError>)
    ensures
        r is Ok <==> (media_types@.len() > 0 && all_accepted(media_types@, accepted@)),
        media_types@.len() == 0 ==> r is Err && r->Err_0.kind == ErrorKind::NoLayers,
        media_types@.len() > 0 && !all_accepted(media_types@, accepted@) ==> r is Err
            && r->Err_0.kind == ErrorKind::IncompatibleLayer,
{
    if media_types.len() == 0 {
        return Err(ClientError::new(ErrorKind::NoLayers, "the manifest lists no layer".to_string()));
    }
    let mut i: usize = 0;
    while i < media_types.len()
        invariant
            i <= media_types@.len(),
            forall|k: int| 0 <= k < i ==> is_accepted(accepted@, (#[trigger] media_types@[k])@),
        decreases media_types@.len() - i,
    {
        if !accepts(accepted, &media_types[i]) {
            return Err(ClientError::new(ErrorKind::IncompatibleLayer, media_types[i].clone()));
        }
        i = i + 1;
    }
    Ok(())
}

/// Whether every fetch succeeded.
pub open spec fn all_ok<T>(results: Seq<Result<T, ClientError>>) -> bool {
    forall|i: int| 0 <= i < results.len() ==> (#[trigger] results[i]) is Ok
}

/// Whether `k` is the position of the first failed fetch.
pub open spec fn first_failure<T>(results: Seq<Result<T, ClientError>>, k: int) -> bool {
    &&& 0 <= k < results.len()
    &&& results[k] is Err
    &&& forall|i: int| 0 <= i < k ==> (#[trigger] results[i]) is Ok
}

/// Gathers the fetched layers, all or nothing: every layer in order when every
/// fetch succeeded, else the first failure and no layer at all.
pub fn collect_layers(results: Vec<Result<NapiImageLayer, ClientError>>) -> (r: Result<Vec<NapiImageLayer>, ClientError>)
    ensures
        r is Ok <==> all_ok(results@),
        match r {
            Ok(layers) => layers@.len() == results@.len() && forall|i: int|
                0 <= i < results@.len() ==> layers@[i] == (#[trigger] results@[i])->Ok_0,
            Err(e) => exists|k: int| first_failure(results@, k) && results@[k] == Err::<NapiImageLayer, ClientError>(e),
        },
{
    let ghost input = results@;
    let mut layers: Vec<NapiImageLayer> = Vec::new();
    let mut rest = results;
    while rest.len() > 0
        invariant
            input == results@,
            layers@.len() + rest@.len() == input.len(),
            forall|i: int| 0 <= i < layers@.len() ==> (#[trigger] input[i]) is Ok && layers@[i] == input[i]->Ok_0,
            forall|i: int| layers@.len() <= i < input.len() ==> #[trigger] input[i] == rest@[i - layers@.len()],
        decreases rest@.len(),
    {
        let ghost n = layers@.len() as int;
        assert(input[n] == rest@[0]);
        match rest.remove(0) {
            Ok(layer) => {
                layers.push(layer);
            },
            Err(e) => {
                assert(first_failure(input, n));
                assert(!all_ok(input));
                return Err(e);
            },
        }
    }
    Ok(layers)
}

/// Puts a pulled image together, all or nothing: the config fetch comes first,
/// then each layer's; any failure is the result, and no image data is handed
/// out unless every fetch succeeded.
pub fn assemble_image(
    digest: String,
    config: Result<NapiConfig, ClientError>,
    layers: Vec<Result<NapiImageLayer, ClientError>>,
) -> (r: Result<NapiImageData, ClientError>)
    ensures
        r is Ok <==> (config is Ok && all_ok(layers@)),
        match r {
            Ok(d) => d.digest == Some(digest) && d.config == Some(config->Ok_0)
                && d.layers@.len() == layers@.len() && forall|i: int|
                0 <= i < layers@.len() ==> d.layers@[i] == (#[trigger] layers@[i])->Ok_0,
            Err(e) => match config {
                Err(c) => e == c,
                Ok(_) => exists|k: int| first_failure(layers@, k) && layers@[k] == Err::<NapiImageLayer, ClientError>(e),
            },
        },
{
    match config {
        Err(e) => Err(e),
        Ok(c) => match collect_layers(layers) {
            Ok(ls) => Ok(NapiImageData { layers: ls, digest: Some(digest), config: Some(c) }),
            Err(e) => Err(e),
        },
    }
}

} // verus!
