//! Admin-API URIs for one topic: the base form, the partitioned deletion
//! form, and the non-partitioned deletion form.

use vstd::prelude::*;

verus! {

/// `https://{hostname}/admin/v2/persistent/{tenant}/{namespace}/{topic}`
pub open spec fn topic_base_uri_spec(
    hostname: Seq<char>,
    tenant: Seq<char>,
    namespace: Seq<char>,
    topic: Seq<char>,
) -> Seq<char> {
    ("https://")@ + hostname + ("/admin/v2/persistent/")@ + tenant + ("/")@ + namespace + ("/")@
        + topic
}

/// The deletion URI that assumes the topic is partitioned.
pub open spec fn partitioned_delete_uri_spec(
    hostname: Seq<char>,
    tenant: Seq<char>,
    namespace: Seq<char>,
    topic: Seq<char>,
) -> Seq<char> {
    topic_base_uri_spec(hostname, tenant, namespace, topic) + ("/partitions?force=true")@
}

/// The deletion URI that assumes the topic is not partitioned.
pub open spec fn non_partitioned_delete_uri_spec(
    hostname: Seq<char>,
    tenant: Seq<char>,
    namespace: Seq<char>,
    topic: Seq<char>,
) -> Seq<char> {
    topic_base_uri_spec(hostname, tenant, namespace, topic) + ("?force=true")@
}

fn topic_base_uri(hostname: &str, tenant: &str, namespace: &str, topic: &str) -> (r: String)
    ensures
        r@ == topic_base_uri_spec(hostname@, tenant@, namespace@, topic@),
{
    let mut u = String::from_str("https://");
    u.append(hostname);
    u.append("/admin/v2/persistent/");
    u.append(tenant);
    u.append("/");
    u.append(namespace);
    u.append("/");
    u.append(topic);
    proof {
        assert(u@ =~= topic_base_uri_spec(hostname@, tenant@, namespace@, topic@));
    }
    u
}

/// Builds the deletion URI for the partitioned form of the topic, with the
/// forcing query parameter.
pub fn partitioned_delete_uri(hostname: &str, tenant: &str, namespace: &str, topic: &str) -> (r:
    String)
    ensures
        r@ == partitioned_delete_uri_spec(hostname@, tenant@, namespace@, topic@),
{
    let mut u = topic_base_uri(hostname, tenant, namespace, topic);
    u.append("/partitions?force=true");
    u
}

/// Builds the deletion URI for the non-partitioned form of the topic, with
/// the forcing query parameter.
pub fn non_partitioned_delete_uri(hostname: &str, tenant: &str, namespace: &str, topic: &str) -> (r:
    String)
    ensures
        r@ == non_partitioned_delete_uri_spec(hostname@, tenant@, namespace@, topic@),
{
    let mut u = topic_base_uri(hostname, tenant, namespace, topic);
    u.append("?force=true");
    u
}

/// The two URI forms for one topic always differ: the fallback after a
/// not-found answer really targets the other form.
pub proof fn lemma_uri_forms_differ(
    hostname: Seq<char>,
    tenant: Seq<char>,
    namespace: Seq<char>,
    topic: Seq<char>,
)
    ensures
        partitioned_delete_uri_spec(hostname, tenant, namespace, topic)
            != non_partitioned_delete_uri_spec(hostname, tenant, namespace, topic),
{
    reveal_strlit("/partitions?force=true");
    reveal_strlit("?force=true");
    assert(("/partitions?force=true")@.len() == 22);
    assert(("?force=true")@.len() == 11);
    let base = topic_base_uri_spec(hostname, tenant, namespace, topic);
    assert(partitioned_delete_uri_spec(hostname, tenant, namespace, topic).len() == base.len()
        + 22);
    assert(non_partitioned_delete_uri_spec(hostname, tenant, namespace, topic).len() == base.len()
        + 11);
}

} // verus!
