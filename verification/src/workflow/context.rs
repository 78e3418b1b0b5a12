//! Context for workflow execution: the parameters a workflow was started
//! with, the variables its steps set, the latest agent response and the
//! query. Keyed values are held as vectors of entries whose keys are
//! distinct, and are described by the map from keys to values.
use vstd::prelude::*;
use crate::text;
use crate::workflow::types::Workflow;

verus! {

// ---------------------------------------------------------------------------
// Keyed entries
// ---------------------------------------------------------------------------

/// No two entries of `s` have the same key.
pub open spec fn distinct_keys<T>(s: Seq<(String, T)>) -> bool {
    forall|i: int, j: int|
        #![trigger s[i], s[j]]
        0 <= i < s.len() && 0 <= j < s.len() && i != j ==> s[i].0@ != s[j].0@
}

/// Some entry of `s` has the key `k`.
pub open spec fn has_key<T>(s: Seq<(String, T)>, k: Seq<char>) -> bool {
    exists|i: int| #![trigger s[i]] 0 <= i < s.len() && s[i].0@ == k
}

/// The position of an entry of `s` with the key `k`.
pub open spec fn key_index<T>(s: Seq<(String, T)>, k: Seq<char>) -> int {
    choose|i: int| #![trigger s[i]] 0 <= i < s.len() && s[i].0@ == k
}

/// The map from keys to values that the entries `s` hold.
pub open spec fn entries<T>(s: Seq<(String, T)>) -> Map<Seq<char>, T> {
    Map::new(|k: Seq<char>| has_key(s, k), |k: Seq<char>| s[key_index(s, k)].1)
}

/// The map from keys to texts that the entries `s` hold.
pub open spec fn text_entries(s: Seq<(String, String)>) -> Map<Seq<char>, Seq<char>> {
    Map::new(|k: Seq<char>| has_key(s, k), |k: Seq<char>| s[key_index(s, k)].1@)
}

/// With distinct keys, the entry at `i` is the one its key finds.
pub proof fn lemma_entry_at<T>(s: Seq<(String, T)>, i: int)
    requires
        distinct_keys(s),
        0 <= i < s.len(),
    ensures
        has_key(s, s[i].0@),
        key_index(s, s[i].0@) == i,
{
    let k = s[i].0@;
    assert(s[i].0@ == k);
    let j = key_index(s, k);
    assert(s[j].0@ == k);
}

/// Replacing the value of the entry at `i`, whose key is `k`.
pub proof fn lemma_entries_update<T>(s: Seq<(String, T)>, i: int, e: (String, T))
    requires
        distinct_keys(s),
        0 <= i < s.len(),
        s[i].0@ == e.0@,
    ensures
        distinct_keys(s.update(i, e)),
        entries(s.update(i, e)) == entries(s).insert(e.0@, e.1),
{
    let t = s.update(i, e);
    assert(distinct_keys(t)) by {
        assert forall|a: int, b: int|
            0 <= a < t.len() && 0 <= b < t.len() && a != b implies #[trigger] t[a].0@ != #[trigger] t[b].0@ by {
            assert(t[a].0@ == s[a].0@);
            assert(t[b].0@ == s[b].0@);
            assert(s[a].0@ != s[b].0@);
        }
    }
    assert forall|q: Seq<char>| has_key(t, q) <==> (has_key(s, q) || q == e.0@) by {
        if has_key(t, q) {
            let j = key_index(t, q);
            assert(s[j].0@ == q);
        }
        if has_key(s, q) {
            let j = key_index(s, q);
            assert(t[j].0@ == q);
        }
        if q == e.0@ {
            assert(t[i].0@ == q);
        }
    }
    assert forall|q: Seq<char>| has_key(t, q) implies entries(t)[q] == entries(s).insert(
        e.0@,
        e.1,
    )[q] by {
        let j = key_index(t, q);
        if q == e.0@ {
            lemma_entry_at(t, i);
        } else {
            lemma_entry_at(t, j);
            assert(j != i);
            assert(s[j].0@ == q);
            lemma_entry_at(s, j);
        }
    }
    assert(entries(t) =~= entries(s).insert(e.0@, e.1));
}

/// Adding an entry whose key is new.
pub proof fn lemma_entries_push<T>(s: Seq<(String, T)>, e: (String, T))
    requires
        distinct_keys(s),
        !has_key(s, e.0@),
    ensures
        distinct_keys(s.push(e)),
        entries(s.push(e)) == entries(s).insert(e.0@, e.1),
{
    let t = s.push(e);
    let n = s.len() as int;
    assert(distinct_keys(t)) by {
        assert forall|a: int, b: int|
            0 <= a < t.len() && 0 <= b < t.len() && a != b implies #[trigger] t[a].0@ != #[trigger] t[b].0@ by {
            if a < n && b < n {
                assert(t[a] == s[a] && t[b] == s[b]);
            } else if a < n {
                assert(t[a] == s[a]);
                assert(!(s[a].0@ == e.0@));
            } else {
                assert(t[b] == s[b]);
                assert(!(s[b].0@ == e.0@));
            }
        }
    }
    assert forall|q: Seq<char>| has_key(t, q) <==> (has_key(s, q) || q == e.0@) by {
        if has_key(t, q) {
            let j = key_index(t, q);
            if j < n {
                assert(s[j].0@ == q);
            }
        }
        if has_key(s, q) {
            let j = key_index(s, q);
            assert(t[j].0@ == q);
        }
        if q == e.0@ {
            assert(t[n].0@ == q);
        }
    }
    assert forall|q: Seq<char>| has_key(t, q) implies entries(t)[q] == entries(s).insert(
        e.0@,
        e.1,
    )[q] by {
        let j = key_index(t, q);
        if q == e.0@ {
            lemma_entry_at(t, n);
        } else {
            lemma_entry_at(t, j);
            assert(j != n);
            assert(s[j].0@ == q);
            lemma_entry_at(s, j);
        }
    }
    assert(entries(t) =~= entries(s).insert(e.0@, e.1));
}

/// The texts of a map of strings are those of its entries.
pub proof fn lemma_text_entries(s: Seq<(String, String)>, t: Seq<(String, String)>, k: Seq<char>, v: String)
    requires
        entries(t) == entries(s).insert(k, v),
    ensures
        text_entries(t) == text_entries(s).insert(k, v@),
{
    assert forall|q: Seq<char>| #[trigger] has_key(t, q) <==> (has_key(s, q) || q == k) by {
        assert(entries(t).dom().contains(q) == has_key(t, q));
        assert(entries(s).dom().contains(q) == has_key(s, q));
    }
    assert forall|q: Seq<char>| has_key(t, q) implies text_entries(t)[q] == text_entries(s).insert(
        k,
        v@,
    )[q] by {
        assert(entries(t)[q] == entries(s).insert(k, v)[q]);
        assert(text_entries(t)[q] == entries(t)[q]@);
        if q != k {
            assert(has_key(s, q));
            assert(text_entries(s)[q] == entries(s)[q]@);
        }
    }
    assert(text_entries(t) =~= text_entries(s).insert(k, v@));
}

/// The position of the entry of `v` with the key `k`, if there is one.
pub fn find_key<T>(v: &Vec<(String, T)>, k: &str) -> (r: Option<usize>)
    ensures
        r matches Some(i) ==> i < v.len() && v@[i as int].0@ == k@,
        r is None ==> !has_key(v@, k@),
{
    let kc = text::str_chars(k);
    let mut i: usize = 0;
    while i < v.len()
        invariant
            i <= v.len(),
            kc@ == k@,
            forall|j: int| 0 <= j < i ==> #[trigger] v@[j].0@ != k@,
        decreases v.len() - i,
    {
        if text::chars_eq(&text::str_chars(v[i].0.as_str()), &kc) {
            return Some(i);
        }
        i = i + 1;
    }
    proof {
        if has_key(v@, k@) {
            let j = key_index(v@, k@);
            assert(v@[j].0@ == k@);
        }
    }
    None
}

/// Sets the value of the key `k` to `x`, replacing the value it had.
pub fn put_entry<T>(v: &mut Vec<(String, T)>, k: String, x: T)
    requires
        distinct_keys(old(v)@),
    ensures
        distinct_keys(final(v)@),
        entries(final(v)@) == entries(old(v)@).insert(k@, x),
{
    let ghost s = v@;
    let ghost e = (k, x);
    match find_key(v, k.as_str()) {
        Some(i) => {
            proof {
                lemma_entries_update(s, i as int, e);
            }
            v.set(i, (k, x));
            assert(v@ == s.update(i as int, e));
        },
        None => {
            proof {
                lemma_entries_push(s, e);
            }
            v.push((k, x));
            assert(v@ == s.push(e));
        },
    }
}

/// The text an optional string holds.
pub open spec fn opt_text(s: Option<String>) -> Option<Seq<char>> {
    match s {
        Some(t) => Some(t@),
        None => None,
    }
}

/// The text an optional reference to a string holds.
pub open spec fn opt_ref_text(s: Option<&String>) -> Option<Seq<char>> {
    match s {
        Some(t) => Some(t@),
        None => None,
    }
}

// ---------------------------------------------------------------------------
// Errors
// ---------------------------------------------------------------------------

/// Error types for workflow operations. Errors of the file system and of
/// the YAML reader are carried by their messages.
#[derive(Debug)]
pub enum WorkflowError {
    MissingParameter(String),
    InvalidStepType,
    MissingField(String),
    TemplateError(String),
    IoError(String),
    ShellError(String),
    AgentError(String),
    InvalidConfig(String),
    YamlError(String),
    PermissionDenied(String),
}

/// The message of a workflow error.
pub open spec fn error_message(e: WorkflowError) -> Seq<char> {
    match e {
        WorkflowError::MissingParameter(s) => "Missing required parameter: "@ + s@,
        WorkflowError::InvalidStepType => "Invalid step type"@,
        WorkflowError::MissingField(s) => "Missing required field: "@ + s@,
        WorkflowError::TemplateError(s) => "Template error: "@ + s@,
        WorkflowError::IoError(s) => "IO error: "@ + s@,
        WorkflowError::ShellError(s) => "Shell command failed: "@ + s@,
        WorkflowError::AgentError(s) => "Agent error: "@ + s@,
        WorkflowError::InvalidConfig(s) => "Invalid workflow configuration: "@ + s@,
        WorkflowError::YamlError(s) => "YAML error: "@ + s@,
        WorkflowError::PermissionDenied(s) => "Permission denied: "@ + s@,
    }
}

impl WorkflowError {
    /// The message of the error, as it is displayed.
    pub fn message(&self) -> (r: String)
        ensures
            r@ == error_message(*self),
    {
        let (head, detail): (&str, Option<&String>) = match self {
            WorkflowError::MissingParameter(s) => ("Missing required parameter: ", Some(s)),
            WorkflowError::InvalidStepType => ("Invalid step type", None),
            WorkflowError::MissingField(s) => ("Missing required field: ", Some(s)),
            WorkflowError::TemplateError(s) => ("Template error: ", Some(s)),
            WorkflowError::IoError(s) => ("IO error: ", Some(s)),
            WorkflowError::ShellError(s) => ("Shell command failed: ", Some(s)),
            WorkflowError::AgentError(s) => ("Agent error: ", Some(s)),
            WorkflowError::InvalidConfig(s) => ("Invalid workflow configuration: ", Some(s)),
            WorkflowError::YamlError(s) => ("YAML error: ", Some(s)),
            WorkflowError::PermissionDenied(s) => ("Permission denied: ", Some(s)),
        };
        let mut m = text::str_chars(head);
        if let Some(d) = detail {
            text::append_str(&mut m, d.as_str());
        }
        proof {
            reveal_strlit("Invalid step type");
        }
        text::chars_to_string(&m)
    }
}

// ---------------------------------------------------------------------------
// The context
// ---------------------------------------------------------------------------

/// Context for workflow execution
pub struct WorkflowContext {
    /// Parameters passed to the workflow
    parameters: Vec<(String, serde_yaml::Value)>,
    /// Variables set during workflow execution
    variables: Vec<(String, String)>,
    /// Latest agent response
    agent_response: Option<String>,
    /// Query provided to the workflow
    query: Option<String>,
}

/// The first required parameter of `workflow` that `params` has no value
/// for, if any.
pub open spec fn missing_at(workflow: Workflow, params: Map<Seq<char>, serde_yaml::Value>, i: int) -> bool {
    &&& 0 <= i < workflow.parameters@.len()
    &&& workflow.parameters@[i].required
    &&& !params.contains_key(workflow.parameters@[i].name@)
}

impl WorkflowContext {
    /// The keys of parameters and of variables are distinct.
    pub closed spec fn wf(&self) -> bool {
        distinct_keys(self.parameters@) && distinct_keys(self.variables@)
    }

    /// The parameters, by name.
    pub closed spec fn params(&self) -> Map<Seq<char>, serde_yaml::Value> {
        entries(self.parameters@)
    }

    /// The variables, by name.
    pub closed spec fn vars(&self) -> Map<Seq<char>, Seq<char>> {
        text_entries(self.variables@)
    }

    /// The latest agent response.
    pub closed spec fn response(&self) -> Option<Seq<char>> {
        opt_text(self.agent_response)
    }

    /// The query.
    pub closed spec fn query_text(&self) -> Option<Seq<char>> {
        opt_text(self.query)
    }

    /// The texts a template sees by name, besides the parameters: the
    /// variables, then the agent response and the query, each of which
    /// takes the place of a variable of its name.
    pub closed spec fn template_texts(&self) -> Map<Seq<char>, Seq<char>> {
        let m = self.vars();
        let m = match self.response() {
            Some(a) => m.insert("agent_response"@, a),
            None => m,
        };
        match self.query_text() {
            Some(q) => m.insert("query"@, q),
            None => m,
        }
    }

    /// Create a new workflow context with the given parameters and query
    pub fn new(parameters: Vec<(String, serde_yaml::Value)>, query: Option<String>) -> (r: Self)
        requires
            distinct_keys(parameters@),
        ensures
            r.wf(),
            r.params() == entries(parameters@),
            r.vars() == Map::<Seq<char>, Seq<char>>::empty(),
            r.response() is None,
            r.query_text() == opt_text(query),
    {
        let r = Self { parameters, variables: Vec::new(), agent_response: None, query };
        assert(r.vars() =~= Map::<Seq<char>, Seq<char>>::empty());
        r
    }

    /// The parameters, as entries with distinct names.
    pub fn parameters(&self) -> (r: &Vec<(String, serde_yaml::Value)>)
        requires
            self.wf(),
        ensures
            distinct_keys(r@),
            entries(r@) == self.params(),
    {
        &self.parameters
    }

    /// Set the query
    pub fn set_query(&mut self, query: Option<String>)
        requires
            old(self).wf(),
        ensures
            final(self).wf(),
            final(self).query_text() == opt_text(query),
            final(self).params() == old(self).params(),
            final(self).vars() == old(self).vars(),
            final(self).response() == old(self).response(),
    {
        self.query = query;
    }

    /// Get the query
    pub fn get_query(&self) -> (r: Option<&String>)
        ensures
            opt_ref_text(r) == self.query_text(),
    {
        self.query.as_ref()
    }

    /// Validate that all required parameters are present: the first
    /// required parameter without a value is reported.
    pub fn validate_parameters(&self, workflow: &Workflow) -> (r: Result<(), WorkflowError>)
        ensures
            r is Ok <==> !exists|i: int| missing_at(*workflow, self.params(), i),
            r matches Err(e) ==> exists|i: int|
                missing_at(*workflow, self.params(), i) && (forall|j: int|
                    0 <= j < i ==> !missing_at(*workflow, self.params(), j)) && e
                    == WorkflowError::MissingParameter(workflow.parameters@[i].name),
    {
        let ps = &workflow.parameters;
        let mut i: usize = 0;
        while i < ps.len()
            invariant
                i <= ps.len(),
                ps@ == workflow.parameters@,
                forall|j: int| 0 <= j < i ==> !missing_at(*workflow, self.params(), j),
            decreases ps.len() - i,
        {
            if ps[i].required && find_key(&self.parameters, ps[i].name.as_str()).is_none() {
                assert(!self.params().contains_key(ps[i as int].name@));
                assert(missing_at(*workflow, self.params(), i as int));
                let name = ps[i].name.clone();
                assert(name == workflow.parameters@[i as int].name);
                return Err(WorkflowError::MissingParameter(name));
            }
            proof {
                if ps[i as int].required {
                    let k = ps[i as int].name@;
                    assert(has_key(self.parameters@, k));
                    assert(self.params().contains_key(k));
                }
            }
            i = i + 1;
        }
        Ok(())
    }

    /// Get a variable value
    pub fn get_variable(&self, name: &str) -> (r: Option<&String>)
        requires
            self.wf(),
        ensures
            r matches Some(v) ==> self.vars().contains_key(name@) && self.vars()[name@] == v@,
            r is None ==> !self.vars().contains_key(name@),
    {
        match find_key(&self.variables, name) {
            Some(i) => {
                proof {
                    lemma_entry_at(self.variables@, i as int);
                }
                Some(&self.variables[i].1)
            },
            None => None,
        }
    }

    /// Set a variable value
    pub fn set_variable(&mut self, name: String, value: String)
        requires
            old(self).wf(),
        ensures
            final(self).wf(),
            final(self).vars() == old(self).vars().insert(name@, value@),
            final(self).params() == old(self).params(),
            final(self).response() == old(self).response(),
            final(self).query_text() == old(self).query_text(),
    {
        let ghost s = self.variables@;
        let ghost v = value;
        put_entry(&mut self.variables, name, value);
        proof {
            lemma_text_entries(s, self.variables@, name@, v);
        }
    }

    /// Set the agent response
    pub fn set_agent_response(&mut self, response: String)
        requires
            old(self).wf(),
        ensures
            final(self).wf(),
            final(self).response() == Some(response@),
            final(self).params() == old(self).params(),
            final(self).vars() == old(self).vars(),
            final(self).query_text() == old(self).query_text(),
    {
        self.agent_response = Some(response);
    }

    /// Get the agent response
    pub fn get_agent_response(&self) -> (r: Option<&String>)
        ensures
            opt_ref_text(r) == self.response(),
    {
        self.agent_response.as_ref()
    }

    /// The texts that a template sees besides the parameters, as entries
    /// with distinct keys.
    pub fn template_strings(&self) -> (r: Vec<(String, String)>)
        requires
            self.wf(),
        ensures
            distinct_keys(r@),
            text_entries(r@) == self.template_texts(),
    {
        let mut out: Vec<(String, String)> = Vec::new();
        let mut i: usize = 0;
        while i < self.variables.len()
            invariant
                i <= self.variables.len(),
                self.wf(),
                out@ == self.variables@.take(i as int),
            decreases self.variables.len() - i,
        {
            let e = (self.variables[i].0.clone(), self.variables[i].1.clone());
            out.push(e);
            i = i + 1;
            assert(out@ =~= self.variables@.take(i as int));
        }
        assert(out@ =~= self.variables@);
        if let Some(a) = &self.agent_response {
            let ghost s = out@;
            let k = text::chars_to_string(&text::str_chars("agent_response"));
            put_entry(&mut out, k, a.clone());
            proof {
                lemma_text_entries(s, out@, "agent_response"@, *a);
            }
        }
        if let Some(q) = &self.query {
            let ghost s = out@;
            let k = text::chars_to_string(&text::str_chars("query"));
            put_entry(&mut out, k, q.clone());
            proof {
                lemma_text_entries(s, out@, "query"@, *q);
            }
        }
        out
    }
}

/// A variable reads back as the value it was last set to, and setting one
/// variable leaves every other variable as it was.
pub proof fn law_variable_read_after_write(
    before: WorkflowContext,
    after: WorkflowContext,
    name: Seq<char>,
    value: Seq<char>,
    other: Seq<char>,
)
    requires
        after.vars() == before.vars().insert(name, value),
    ensures
        after.vars().contains_key(name),
        after.vars()[name] == value,
        other != name ==> (after.vars().contains_key(other) == before.vars().contains_key(other)),
        other != name && before.vars().contains_key(other) ==> after.vars()[other]
            == before.vars()[other],
{
}

/// A template sees the query under `query` and the agent response under
/// `agent_response` wherever they are set, and every other variable under
/// its own name.
pub proof fn law_template_sees_context(ctx: WorkflowContext, name: Seq<char>)
    ensures
        ctx.query_text() matches Some(q) ==> ctx.template_texts().contains_key("query"@)
            && ctx.template_texts()["query"@] == q,
        ctx.response() matches Some(a) ==> ctx.template_texts().contains_key("agent_response"@)
            && ctx.template_texts()["agent_response"@] == a,
        name != "query"@ && name != "agent_response"@ ==> (ctx.template_texts().contains_key(name)
            == ctx.vars().contains_key(name)),
        name != "query"@ && name != "agent_response"@ && ctx.vars().contains_key(name)
            ==> ctx.template_texts()[name] == ctx.vars()[name],
{
    reveal_strlit("query");
    reveal_strlit("agent_response");
    assert("query"@[0] != "agent_response"@[0]);
}

} // verus!
