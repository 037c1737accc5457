use vstd::prelude::*;
use vstd::string::StringExecFns;
use std::str::FromStr;
use crate::error::{ClientError, ErrorKind};

verus! {

/// A parsed reference as plain text values.
pub struct ReferenceView {
    pub registry: Seq<char>,
    pub repository: Seq<char>,
    pub tag: Option<Seq<char>>,
    pub digest: Option<Seq<char>>,
}

/// An image reference: `registry/repository`, then `:tag`, `@digest` or both.
#[derive(Debug, Clone, PartialEq, Eq)]
pub struct ImageReference {
    pub registry: String,
    pub repository: String,
    pub tag: Option<String>,
    pub digest: Option<String>,
}

pub open spec fn opt_view(o: Option<String>) -> Option<Seq<char>> {
    match o {
        Some(s) => Some(s@),
        None => None,
    }
}

impl View for ImageReference {
    type V = ReferenceView;

    open spec fn view(&self) -> ReferenceView {
        ReferenceView {
            registry: self.registry@,
            repository: self.repository@,
            tag: opt_view(self.tag),
            digest: opt_view(self.digest),
        }
    }
}

/// What oci-client's reference grammar makes of a text, where it accepts it.
pub uninterp spec fn oci_reference(s: Seq<char>) -> Option<ReferenceView>;

/// Relies on `oci_client::Reference::from_str` (the grammar of oci-spec's
/// `Reference`): the outcome depends on the text alone, an empty text is
/// refused, and an accepted reference has a non-empty repository and a tag
/// (of at most 128 characters) or a digest, `latest` being filled in where
/// the text gives neither.
#[verifier::external_body]
fn parse_with_oci(s: &str) -> (r: Result<ImageReference, String>)
    ensures
        match r {
            Ok(v) => oci_reference(s@) == Some(v@),
            Err(_) => oci_reference(s@) is None,
        },
        s@.len() == 0 ==> r is Err,
        r is Ok ==> r->Ok_0.wf(),
{
    match oci_client::Reference::from_str(s) {
        Ok(v) => Ok(ImageReference {
            registry: v.registry().to_string(),
            repository: v.repository().to_string(),
            tag: v.tag().map(|t| t.to_string()),
            digest: v.digest().map(|d| d.to_string()),
        }),
        Err(e) => Err(e.to_string()),
    }
}

/// Parses a reference text, all or nothing.
pub fn parse_reference(s: &str) -> (r: Result<ImageReference, ClientError>)
    ensures
        match r {
            Ok(v) => oci_reference(s@) == Some(v@) && v.wf(),
            Err(e) => oci_reference(s@) is None && e.kind == ErrorKind::InvalidReference,
        },
        s@.len() == 0 ==> r is Err,
{
    match parse_with_oci(s) {
        Ok(v) => Ok(v),
        Err(cause) => Err(ClientError::new(ErrorKind::InvalidReference, cause)),
    }
}

/// The canonical text of a reference: the registry and the repository joined
/// by `/` (the repository alone when the registry is empty), then `:tag` and
/// `@digest` where present.
pub open spec fn whole_of(v: ReferenceView) -> Seq<char> {
    let name = if v.registry.len() == 0 {
        v.repository
    } else {
        v.registry + seq!['/'] + v.repository
    };
    let with_tag = match v.tag {
        Some(t) => if name.len() == 0 {
            t
        } else {
            name + seq![':'] + t
        },
        None => name,
    };
    match v.digest {
        Some(d) => if with_tag.len() == 0 {
            d
        } else {
            with_tag + seq!['@'] + d
        },
        None => with_tag,
    }
}

/// The host that requests for a registry go to: Docker Hub's name is
/// redirected to its index host, any other registry is its own host.
pub open spec fn resolved_host(registry: Seq<char>) -> Seq<char> {
    if registry == "docker.io"@ {
        "index.docker.io"@
    } else {
        registry
    }
}

impl ImageReference {
    /// A reference has a repository and names a tag, a digest, or both; a
    /// tag is at most 128 characters long.
    pub open spec fn wf(&self) -> bool {
        &&& self.repository@.len() > 0
        &&& (self.tag is Some || self.digest is Some)
        &&& (self.tag matches Some(t) ==> t@.len() <= 128)
    }

    /// The canonical text of the reference.
    pub fn whole(&self) -> (r: String)
        ensures
            r@ == whole_of(self@),
    {
        proof {
            reveal_strlit("/");
            reveal_strlit(":");
            reveal_strlit("@");
            assert("/"@ =~= seq!['/']);
            assert(":"@ =~= seq![':']);
            assert("@"@ =~= seq!['@']);
        }
        let ghost v = self@;
        let mut s = if self.registry.as_str().is_empty() {
            self.repository.clone()
        } else {
            self.registry.clone().concat("/").concat(self.repository.as_str())
        };
        let ghost name = if v.registry.len() == 0 {
            v.repository
        } else {
            v.registry + seq!['/'] + v.repository
        };
        assert(s@ == name);
        match &self.tag {
            Some(t) => {
                if !s.as_str().is_empty() {
                    s.append(":");
                }
                s.append(t.as_str());
            },
            None => {},
        }
        let ghost with_tag = match v.tag {
            Some(t) => if name.len() == 0 {
                t
            } else {
                name + seq![':'] + t
            },
            None => name,
        };
        assert(s@ == with_tag);
        match &self.digest {
            Some(d) => {
                if !s.as_str().is_empty() {
                    s.append("@");
                }
                s.append(d.as_str());
            },
            None => {},
        }
        s
    }

    /// The host that requests for this reference go to, which also keys the
    /// credentials remembered for it.
    pub fn resolve_registry(&self) -> (r: String)
        ensures
            r@ == resolved_host(self.registry@),
    {
        let hub = <String as StringExecFns>::from_str("docker.io");
        proof {
            reveal_strlit("docker.io");
            reveal_strlit("index.docker.io");
        }
        if self.registry.eq(&hub) {
            <String as StringExecFns>::from_str("index.docker.io")
        } else {
            self.registry.clone()
        }
    }
}

} // verus!
