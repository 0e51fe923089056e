//! How an hx server answers a request that opens a session: the services it
//! offers, and the checks on the request's method, path and headers.

use crate::service::{blake3_hash_of, service_digest, service_digestible, ServiceSchema};
use crate::text::{
    hash_from_text, hash_text, lemma_hash_text_round_trip, lemma_version_text_round_trip,
    encode_hash, parse_hash, parse_version, text_equal, utf8_of, version_from_text, version_text,
    text_error_text, TextError,
};
use crate::version::{lemma_version_view, pack, version_from_packed, Version};
use vstd::prelude::*;

verus! {

/// Every version of the service can be digested, so its effective schema
/// hash is defined at every version.
pub open spec fn service_well_formed(s: ServiceSchema) -> bool {
    forall|v: Version| #[trigger] service_digestible(s, v)
}

/// The position of the last service named `name`, if any.
pub open spec fn index_named(services: Seq<ServiceSchema>, name: Seq<char>) -> Option<int>
    decreases services.len(),
{
    if services.len() == 0 {
        None
    } else if services.last().name@ == name {
        Some(services.len() - 1)
    } else {
        index_named(services.drop_last(), name)
    }
}

/// The services after registering `schema`: it replaces the service of the
/// same name, or is added when there is none.
pub open spec fn registry_insert(services: Seq<ServiceSchema>, schema: ServiceSchema) -> Seq<
    ServiceSchema,
> {
    match index_named(services, schema.name@) {
        Some(i) => services.update(i, schema),
        None => services.push(schema),
    }
}

/// The service offered under `name`, if any.
pub open spec fn service_named(services: Seq<ServiceSchema>, name: Seq<char>) -> Option<
    ServiceSchema,
> {
    match index_named(services, name) {
        Some(i) => Some(services[i]),
        None => None,
    }
}

/// The position found for a name is in range and carries that name.
proof fn lemma_index_named(services: Seq<ServiceSchema>, name: Seq<char>)
    ensures
        match index_named(services, name) {
            Some(i) => 0 <= i < services.len() && services[i].name@ == name,
            None => forall|j: int| 0 <= j < services.len() ==> #[trigger] services[j].name@ != name,
        },
    decreases services.len(),
{
    if services.len() > 0 {
        lemma_index_named(services.drop_last(), name);
        if services.last().name@ != name {
            match index_named(services.drop_last(), name) {
                Some(i) => {},
                None => {
                    assert forall|j: int| 0 <= j < services.len() implies #[trigger] services[j].name@
                        != name by {
                        if j < services.len() - 1 {
                            assert(services.drop_last()[j] == services[j]);
                        }
                    }
                },
            }
        }
    }
}

/// Replacing the service at a position that holds `name` keeps every
/// position found.
proof fn lemma_index_named_update(
    services: Seq<ServiceSchema>,
    i: int,
    schema: ServiceSchema,
    name: Seq<char>,
)
    requires
        0 <= i < services.len(),
        services[i].name@ == schema.name@,
    ensures
        index_named(services.update(i, schema), name) == index_named(services, name),
    decreases services.len(),
{
    let updated = services.update(i, schema);
    if i < services.len() - 1 {
        assert(updated.drop_last() =~= services.drop_last().update(i, schema));
        lemma_index_named_update(services.drop_last(), i, schema, name);
    } else {
        assert(updated.drop_last() =~= services.drop_last());
    }
}

/// After registering `schema`, its name leads to it and every other name
/// leads where it did before.
pub proof fn lemma_registry_lookup_after_register(
    services: Seq<ServiceSchema>,
    schema: ServiceSchema,
    name: Seq<char>,
)
    ensures
        service_named(registry_insert(services, schema), name) == if name == schema.name@ {
            Some(schema)
        } else {
            service_named(services, name)
        },
{
    lemma_index_named(services, schema.name@);
    match index_named(services, schema.name@) {
        Some(i) => {
            lemma_index_named_update(services, i, schema, name);
            lemma_index_named(services, name);
            if name == schema.name@ {
                assert(index_named(services, name) == Some(i));
            } else {
                match index_named(services, name) {
                    Some(j) => {
                        assert(j != i);
                    },
                    None => {},
                }
            }
        },
        None => {
            let pushed = services.push(schema);
            assert(pushed.drop_last() =~= services);
            lemma_index_named(services, name);
            if name != schema.name@ {
                match index_named(services, name) {
                    Some(j) => {
                        assert(pushed[j] == services[j]);
                    },
                    None => {},
                }
            }
        },
    }
}

/// The services a server offers, keyed by name.
pub struct ServiceRegistry {
    services: Vec<ServiceSchema>,
}

impl ServiceRegistry {
    /// The registered services.
    pub closed spec fn services(&self) -> Seq<ServiceSchema> {
        self.services@
    }

    /// Every registered service is well formed.
    pub closed spec fn wf(&self) -> bool {
        forall|i: int| 0 <= i < self.services@.len() ==> service_well_formed(#[trigger] self.services@[i])
    }

    /// A registry without services.
    pub fn new() -> (r: Self)
        ensures
            r.wf(),
            r.services() == Seq::<ServiceSchema>::empty(),
    {
        ServiceRegistry { services: Vec::new() }
    }

    /// The position of the last service named `name`.
    fn position(&self, name: &str) -> (r: Option<usize>)
        ensures
            match index_named(self.services(), name@) {
                Some(i) => r is Some && r->0 as int == i,
                None => r is None,
            },
    {
        let mut i: usize = self.services.len();
        assert(self.services@.take(i as int) =~= self.services@);
        while i > 0
            invariant
                0 <= i <= self.services@.len(),
                index_named(self.services@, name@) == index_named(
                    self.services@.take(i as int),
                    name@,
                ),
            decreases i,
        {
            let ghost prefix = self.services@.take(i as int);
            assert(prefix.drop_last() =~= self.services@.take(i - 1));
            if text_equal(self.services[i - 1].name.as_str(), name) {
                return Some(i - 1);
            }
            i -= 1;
        }
        assert(self.services@.take(0) =~= Seq::<ServiceSchema>::empty());
        None
    }

    /// Offer `schema` under its name, replacing a service of the same name.
    pub fn register(&mut self, schema: ServiceSchema)
        requires
            old(self).wf(),
            service_well_formed(schema),
        ensures
            final(self).wf(),
            final(self).services() == registry_insert(old(self).services(), schema),
    {
        proof {
            lemma_index_named(self.services@, schema.name@);
        }
        match self.position(schema.name.as_str()) {
            Some(i) => {
                self.services.set(i, schema);
            },
            None => {
                self.services.push(schema);
            },
        }
        assert forall|i: int| 0 <= i < self.services@.len() implies service_well_formed(
            #[trigger] self.services@[i],
        ) by {
            if i < old(self).services@.len() && self.services@[i] != schema {
                assert(self.services@[i] == old(self).services@[i]);
            }
        }
    }

    /// The service offered under `name`, if any.
    pub fn lookup(&self, name: &str) -> (r: Option<&ServiceSchema>)
        ensures
            match r {
                Some(s) => service_named(self.services(), name@) == Some(*s),
                None => service_named(self.services(), name@) is None,
            },
    {
        proof {
            lemma_index_named(self.services@, name@);
        }
        match self.position(name) {
            Some(i) => Some(&self.services[i]),
            None => None,
        }
    }
}

/// A header that an hx negotiation request must carry.
#[derive(Clone, Copy, Debug, PartialEq, Eq, Structural)]
pub enum HxHeader {
    /// The payload protocol.
    Protocol,
    /// The name of the requested service.
    ServiceId,
    /// The version the client speaks.
    ServiceVersion,
    /// The client's effective schema hash at that version.
    ServiceHash,
}

/// Why a negotiation request could not be handled.
#[derive(Clone, Copy, Debug, PartialEq, Eq, Structural)]
pub enum NegotiationFault {
    /// A required header is missing, or its value is not UTF-8.
    MissingHeader(HxHeader),
    /// The version or hash header could not be read.
    InvalidHeader(TextError),
}

/// What a header is called in messages.
pub open spec fn header_label(h: HxHeader) -> Seq<char> {
    match h {
        HxHeader::Protocol => "protocol"@,
        HxHeader::ServiceId => "service id"@,
        HxHeader::ServiceVersion => "service version"@,
        HxHeader::ServiceHash => "service hash"@,
    }
}

/// The description of a negotiation fault.
pub open spec fn negotiation_fault_text(f: NegotiationFault) -> Seq<char> {
    match f {
        NegotiationFault::MissingHeader(h) => "missing required header '"@ + header_label(h) + "'"@,
        NegotiationFault::InvalidHeader(e) => text_error_text(e),
    }
}

impl NegotiationFault {
    /// Describe the fault in words.
    pub fn message(&self) -> (r: String)
        ensures
            r@ == negotiation_fault_text(*self),
    {
        match self {
            NegotiationFault::MissingHeader(h) => {
                let mut text = String::from_str("missing required header '");
                let label = match h {
                    HxHeader::Protocol => "protocol",
                    HxHeader::ServiceId => "service id",
                    HxHeader::ServiceVersion => "service version",
                    HxHeader::ServiceHash => "service hash",
                };
                proof {
                    reveal_strlit("protocol");
                    reveal_strlit("service id");
                    reveal_strlit("service version");
                    reveal_strlit("service hash");
                }
                assert(label@ == header_label(*h));
                text.append(label);
                text.append("'");
                text
            },
            NegotiationFault::InvalidHeader(e) => e.message(),
        }
    }
}

/// How the server answers a negotiation request.
#[derive(Clone, Copy, Debug, PartialEq, Eq)]
pub enum NegotiationOutcome {
    /// The request is not for an offered session: answer 404.
    NotFound,
    /// The request could not be handled: answer 500.
    Fault(NegotiationFault),
    /// Open a session speaking `version`.
    Accept(Version),
}

/// The answer to a negotiation request, with `Ok` holding the components of
/// the accepted version, `Err(None)` standing for "not found" and
/// `Err(Some(f))` for a fault.
pub open spec fn negotiation_answer(
    services: Seq<ServiceSchema>,
    endpoint: Seq<char>,
    protocol_token: Seq<char>,
    is_post: bool,
    path: Seq<char>,
    protocol: Option<Seq<char>>,
    service_id: Option<Seq<char>>,
    version: Option<Seq<char>>,
    hash: Option<Seq<char>>,
) -> Result<(u16, u16, u16, u16), Option<NegotiationFault>> {
    if !is_post || path != endpoint {
        Err(None)
    } else if protocol is None {
        Err(Some(NegotiationFault::MissingHeader(HxHeader::Protocol)))
    } else if protocol->0 != protocol_token {
        Err(None)
    } else if service_id is None {
        Err(Some(NegotiationFault::MissingHeader(HxHeader::ServiceId)))
    } else if service_named(services, service_id->0) is None {
        Err(None)
    } else if version is None {
        Err(Some(NegotiationFault::MissingHeader(HxHeader::ServiceVersion)))
    } else if version_from_text(utf8_of(version->0)) is Err {
        Err(Some(NegotiationFault::InvalidHeader(version_from_text(utf8_of(version->0))->Err_0)))
    } else if hash is None {
        Err(Some(NegotiationFault::MissingHeader(HxHeader::ServiceHash)))
    } else if hash_from_text(utf8_of(hash->0)) is Err {
        Err(Some(NegotiationFault::InvalidHeader(hash_from_text(utf8_of(hash->0))->Err_0)))
    } else {
        let service = service_named(services, service_id->0)->0;
        let c = version_from_text(utf8_of(version->0))->Ok_0;
        let v = version_from_packed(pack(c.0, c.1, c.2, c.3) as u64);
        if !service.version.live_at(v) || blake3_hash_of(service_digest(service, v))
            != hash_from_text(utf8_of(hash->0))->Ok_0 {
            Err(None)
        } else {
            Ok(c)
        }
    }
}

/// A session is only opened for a registered service at the version the
/// client asked for, only where the service exists there (introduced at or
/// before it and not removed at or before it), and only when the client's
/// hash is the service's own effective schema hash at that version. A well-formed request for
/// a registered service at a version where the service does not exist is
/// answered "not found", whatever hash it carries.
pub proof fn lemma_sessions_open_only_where_the_service_exists(
    services: Seq<ServiceSchema>,
    endpoint: Seq<char>,
    protocol_token: Seq<char>,
    is_post: bool,
    path: Seq<char>,
    protocol: Option<Seq<char>>,
    service_id: Option<Seq<char>>,
    version: Option<Seq<char>>,
    hash: Option<Seq<char>>,
)
    ensures
        ({
            let answer = negotiation_answer(
                services,
                endpoint,
                protocol_token,
                is_post,
                path,
                protocol,
                service_id,
                version,
                hash,
            );
            &&& answer matches Ok(c) ==> {
                &&& service_id is Some
                &&& service_named(services, service_id->0) is Some
                &&& version is Some
                &&& version_from_text(utf8_of(version->0)) == Ok::<
                    (u16, u16, u16, u16),
                    TextError,
                >(c)
                &&& hash is Some
                &&& hash_from_text(utf8_of(hash->0)) is Ok
                &&& ({
                    let service = service_named(services, service_id->0)->0;
                    let range = service.version;
                    let v = version_from_packed(pack(c.0, c.1, c.2, c.3) as u64);
                    &&& v@ >= range.introduced@
                    &&& (range.removed_in matches Some(gone) ==> v@ < gone@)
                    &&& hash_from_text(utf8_of(hash->0))->Ok_0 == blake3_hash_of(
                        service_digest(service, v),
                    )
                })
            }
            &&& ({
                &&& is_post
                &&& path == endpoint
                &&& protocol == Some(protocol_token)
                &&& service_id is Some
                &&& service_named(services, service_id->0) is Some
                &&& version is Some
                &&& version_from_text(utf8_of(version->0)) is Ok
                &&& hash is Some
                &&& hash_from_text(utf8_of(hash->0)) is Ok
                &&& ({
                    let range = service_named(services, service_id->0)->0.version;
                    let c = version_from_text(utf8_of(version->0))->Ok_0;
                    let v = version_from_packed(pack(c.0, c.1, c.2, c.3) as u64);
                    ||| v@ < range.introduced@
                    ||| range.removed_in matches Some(gone) && v@ >= gone@
                })
            }) ==> answer == Err::<(u16, u16, u16, u16), Option<NegotiationFault>>(None)
        }),
{
}

/// A client that asks for a registered service at a version where the
/// service exists, writing that version and the server's own effective
/// schema hash the way a client writes them, is accepted at that version.
pub proof fn lemma_matching_client_is_accepted(
    services: Seq<ServiceSchema>,
    endpoint: Seq<char>,
    protocol_token: Seq<char>,
    name: Seq<char>,
    v: Version,
    client_hash: Seq<u8>,
)
    requires
        service_named(services, name) is Some,
        service_named(services, name)->0.version.live_at(v),
        client_hash.len() == 32,
        client_hash == blake3_hash_of(service_digest(service_named(services, name)->0, v)),
    ensures
        negotiation_answer(
            services,
            endpoint,
            protocol_token,
            true,
            endpoint,
            Some(protocol_token),
            Some(name),
            Some(version_text(v)),
            Some(hash_text(client_hash)),
        ) == Ok::<(u16, u16, u16, u16), Option<NegotiationFault>>(v.components()),
{
    lemma_version_text_round_trip(v);
    lemma_hash_text_round_trip(client_hash);
    lemma_version_view(v, v@);
}

/// Decide how to answer a request that asks to open a session.
///
/// The request must be a POST to `endpoint` whose protocol header is
/// `protocol_token`, naming a registered service, a version at which the
/// service exists, and the service's effective schema hash at that version;
/// otherwise the answer is "not found". A header that is absent (`None`) or
/// unreadable makes the request a fault.
pub fn negotiate(
    registry: &ServiceRegistry,
    endpoint: &str,
    protocol_token: &str,
    is_post: bool,
    path: &str,
    protocol: Option<&str>,
    service_id: Option<&str>,
    version: Option<&str>,
    hash: Option<&str>,
) -> (r: NegotiationOutcome)
    requires
        registry.wf(),
    ensures
        ({
            let answer = negotiation_answer(
                registry.services(),
                endpoint@,
                protocol_token@,
                is_post,
                path@,
                match protocol {
                    Some(t) => Some(t@),
                    None => None,
                },
                match service_id {
                    Some(t) => Some(t@),
                    None => None,
                },
                match version {
                    Some(t) => Some(t@),
                    None => None,
                },
                match hash {
                    Some(t) => Some(t@),
                    None => None,
                },
            );
            match r {
                NegotiationOutcome::NotFound => answer == Err::<
                    (u16, u16, u16, u16),
                    Option<NegotiationFault>,
                >(None),
                NegotiationOutcome::Fault(f) => answer == Err::<
                    (u16, u16, u16, u16),
                    Option<NegotiationFault>,
                >(Some(f)),
                NegotiationOutcome::Accept(v) => answer matches Ok(c) && v@ == pack(
                    c.0,
                    c.1,
                    c.2,
                    c.3,
                ),
            }
        }),
{
    if !is_post || !text_equal(path, endpoint) {
        return NegotiationOutcome::NotFound;
    }
    let protocol = match protocol {
        Some(p) => p,
        None => return NegotiationOutcome::Fault(NegotiationFault::MissingHeader(HxHeader::Protocol)),
    };
    if !text_equal(protocol, protocol_token) {
        return NegotiationOutcome::NotFound;
    }
    let service_id = match service_id {
        Some(s) => s,
        None => return NegotiationOutcome::Fault(
            NegotiationFault::MissingHeader(HxHeader::ServiceId),
        ),
    };
    let service = match registry.lookup(service_id) {
        Some(s) => s,
        None => return NegotiationOutcome::NotFound,
    };
    let version_text = match version {
        Some(t) => t,
        None => return NegotiationOutcome::Fault(
            NegotiationFault::MissingHeader(HxHeader::ServiceVersion),
        ),
    };
    let version = match parse_version(version_text) {
        Ok(v) => v,
        Err(e) => return NegotiationOutcome::Fault(NegotiationFault::InvalidHeader(e)),
    };
    let hash_text = match hash {
        Some(t) => t,
        None => return NegotiationOutcome::Fault(
            NegotiationFault::MissingHeader(HxHeader::ServiceHash),
        ),
    };
    let hash = match parse_hash(hash_text) {
        Ok(h) => h,
        Err(e) => return NegotiationOutcome::Fault(NegotiationFault::InvalidHeader(e)),
    };
    proof {
        lemma_version_view(version, version@);
        lemma_index_named(registry.services(), service_id@);
        let i = index_named(registry.services(), service_id@)->0;
        assert(service_well_formed(registry.services()[i]));
        assert(service_digestible(*service, version));
    }
    if !service.is_available_at(version) {
        return NegotiationOutcome::NotFound;
    }
    let expected = service.effective_schema_hash(version);
    if !same_hash(&expected, &hash) {
        return NegotiationOutcome::NotFound;
    }
    NegotiationOutcome::Accept(version)
}

/// Compare two schema hashes.
fn same_hash(a: &[u8; 32], b: &[u8; 32]) -> (r: bool)
    ensures
        r == (a@ == b@),
{
    let mut i: usize = 0;
    while i < 32
        invariant
            0 <= i <= 32,
            a@.len() == 32,
            b@.len() == 32,
            forall|j: int| 0 <= j < i ==> a@[j] == b@[j],
        decreases 32 - i,
    {
        if a[i] != b[i] {
            return false;
        }
        i += 1;
    }
    assert(a@ =~= b@);
    true
}

/// The values of the headers a client sends to open a session.
pub struct NegotiationHeaders {
    /// The payload protocol.
    pub protocol: String,
    /// The name of the requested service.
    pub service_id: String,
    /// The version the client speaks, as text.
    pub version: String,
    /// The client's effective schema hash, as 64 hexadecimal digits.
    pub hash: String,
}

/// The headers a client sends to open a session of `service_id` at
/// `version`, with its effective schema `hash`.
pub fn request_headers(protocol_token: &str, service_id: &str, version: Version, hash: &[u8; 32]) -> (r:
    NegotiationHeaders)
    ensures
        r.protocol@ == protocol_token@,
        r.service_id@ == service_id@,
        r.version@ == version_text(version),
        r.hash@ == hash_text(hash@),
{
    NegotiationHeaders {
        protocol: String::from_str(protocol_token),
        service_id: String::from_str(service_id),
        version: version.format(),
        hash: encode_hash(hash),
    }
}

} // verus!
