use vstd::prelude::*;
use crate::json::{join_comma, json_quote, json_string_array, json_string_of, joined, quoted_all, string_views};

verus! {

/// One statement of a session policy: an effect, the actions it covers and
/// the one resource pattern it applies to.
pub struct PolicyStatement {
    pub effect: String,
    pub actions: Vec<String>,
    pub resource: String,
}

/// The pattern that names every object inside `bucket`.
pub open spec fn object_arn(bucket: Seq<char>) -> Seq<char> {
    "arn:aws:s3:::"@ + bucket + "/*"@
}

/// The pattern that names `bucket` itself.
pub open spec fn bucket_arn(bucket: Seq<char>) -> Seq<char> {
    "arn:aws:s3:::"@ + bucket
}

/// The actions granted on the objects of the bucket.
pub open spec fn object_actions() -> Seq<Seq<char>> {
    seq!["s3:GetObject"@, "s3:PutObject"@]
}

/// The actions granted on the bucket itself.
pub open spec fn bucket_actions() -> Seq<Seq<char>> {
    seq!["s3:ListBucket"@]
}

/// The JSON text of one statement.
pub open spec fn statement_text(effect: Seq<char>, actions: Seq<Seq<char>>, resource: Seq<char>) -> Seq<char> {
    "{\"Effect\":"@ + json_string_of(effect) + ",\"Action\":"@
        + seq!['['] + joined(actions.map_values(|a: Seq<char>| json_string_of(a))) + seq![']']
        + ",\"Resource\":"@ + json_string_of(resource) + "}"@
}

/// The JSON text of a statement value.
pub open spec fn statement_json(s: PolicyStatement) -> Seq<char> {
    statement_text(s.effect@, string_views(s.actions@), s.resource@)
}

/// The JSON text of a policy document holding the given statement texts.
pub open spec fn policy_text(statements: Seq<Seq<char>>) -> Seq<char> {
    "{\"Version\":\"2012-10-17\",\"Statement\":["@ + joined(statements) + "]}"@
}

/// The two statements that scope a session to `bucket`: read and write its
/// objects, list the bucket.
pub open spec fn bucket_statements(bucket: Seq<char>) -> Seq<Seq<char>> {
    seq![
        statement_text("Allow"@, object_actions(), object_arn(bucket)),
        statement_text("Allow"@, bucket_actions(), bucket_arn(bucket)),
    ]
}

/// The session policy for `bucket`.
pub open spec fn bucket_policy_text(bucket: Seq<char>) -> Seq<char> {
    policy_text(bucket_statements(bucket))
}

impl PolicyStatement {
    /// The statement in JSON, its fields in the order effect, action, resource.
    pub fn to_json(&self) -> (r: String)
        ensures
            r@ == statement_json(*self),
    {
        let effect = json_quote(self.effect.as_str());
        let actions = json_string_array(&self.actions);
        let resource = json_quote(self.resource.as_str());
        let mut out = String::from_str("{\"Effect\":");
        out.append(effect.as_str());
        out.append(",\"Action\":");
        out.append(actions.as_str());
        out.append(",\"Resource\":");
        out.append(resource.as_str());
        out.append("}");
        proof {
            assert(quoted_all(self.actions@) =~= string_views(self.actions@).map_values(
                |a: Seq<char>| json_string_of(a),
            ));
            assert(out@ =~= statement_json(*self));
        }
        out
    }
}

fn allow(actions: Vec<String>, resource: String) -> (r: PolicyStatement)
    ensures
        r.effect@ == "Allow"@,
        r.actions == actions,
        r.resource == resource,
{
    PolicyStatement { effect: String::from_str("Allow"), actions, resource }
}

/// The statements that scope a session to `bucket`. Every resource pattern is
/// built from `bucket` alone.
pub fn policy_statements(bucket: &str) -> (r: Vec<PolicyStatement>)
    ensures
        r@.len() == 2,
        r@[0].effect@ == "Allow"@,
        string_views(r@[0].actions@) == object_actions(),
        r@[0].resource@ == object_arn(bucket@),
        r@[1].effect@ == "Allow"@,
        string_views(r@[1].actions@) == bucket_actions(),
        r@[1].resource@ == bucket_arn(bucket@),
{
    let on_objects = vec![String::from_str("s3:GetObject"), String::from_str("s3:PutObject")];
    let mut objects = String::from_str("arn:aws:s3:::");
    objects.append(bucket);
    objects.append("/*");
    let on_bucket = vec![String::from_str("s3:ListBucket")];
    let mut whole = String::from_str("arn:aws:s3:::");
    whole.append(bucket);
    let r = vec![allow(on_objects, objects), allow(on_bucket, whole)];
    proof {
        assert(string_views(r@[0].actions@) =~= object_actions());
        assert(string_views(r@[1].actions@) =~= bucket_actions());
    }
    r
}

/// Writes a policy document holding `statements`, in their order.
pub fn render_policy(statements: &Vec<PolicyStatement>) -> (r: String)
    ensures
        r@ == policy_text(statements@.map_values(|s: PolicyStatement| statement_json(s))),
{
    let mut parts: Vec<String> = Vec::new();
    let mut i: usize = 0;
    while i < statements.len()
        invariant
            0 <= i <= statements.len(),
            parts@.len() == i,
            forall|j: int| 0 <= j < i ==> #[trigger] parts@[j]@ == statement_json(statements@[j]),
        decreases statements.len() - i,
    {
        parts.push(statements[i].to_json());
        i += 1;
    }
    proof {
        assert(string_views(parts@) =~= statements@.map_values(|s: PolicyStatement| statement_json(s)));
    }
    let inner = join_comma(&parts);
    let mut out = String::from_str("{\"Version\":\"2012-10-17\",\"Statement\":[");
    out.append(inner.as_str());
    out.append("]}");
    out
}

/// The session policy for `bucket`: its two statements, rendered as JSON.
pub fn policy_document(bucket: &str) -> (r: String)
    ensures
        r@ == bucket_policy_text(bucket@),
{
    let statements = policy_statements(bucket);
    let r = render_policy(&statements);
    proof {
        let texts = statements@.map_values(|s: PolicyStatement| statement_json(s));
        assert(texts =~= bucket_statements(bucket@));
    }
    r
}

/// A session policy for a bucket holds exactly two statements, and the only
/// resource patterns in it are the bucket and the objects inside it, both
/// made from the configured bucket name.
pub proof fn lemma_policy_scoped_to_bucket(bucket: Seq<char>)
    ensures
        bucket_statements(bucket).len() == 2,
        bucket_statements(bucket)[0] == statement_text("Allow"@, object_actions(), object_arn(bucket)),
        bucket_statements(bucket)[1] == statement_text("Allow"@, bucket_actions(), bucket_arn(bucket)),
        bucket_policy_text(bucket) == policy_text(bucket_statements(bucket)),
{
}

} // verus!
