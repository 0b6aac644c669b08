//! Templates in the sled store: new templates, their descriptions, and the
//! template listing of a project, sorted by name.
use vstd::prelude::*;
use crate::bolt::keys::{owned_bucket, owned_bucket_name, record_key};
use crate::bolt::sequence::{sequence_failed, took_sequence};
use crate::bolt::store::BoltStore;
use crate::error::DbError;
use crate::model::{RetrieveQueryParams, Template, TemplateFilter};
use crate::page::{Selector, paged, take_page};
use crate::sort::{Order, sort_stable, sorted_by, stable_arrangement};
use crate::text::chars_of;
use crate::time::now;

verus! {

/// The bucket of the templates.
pub open spec fn templates_bucket() -> Seq<char> {
    "templates"@
}

/// The message for a template that does not exist.
pub open spec fn template_missing() -> Seq<char> {
    "Шаблон не найден"@
}

/// Whether `a` sorts before or with `b`, character by character by code
/// point, a text coming before every longer text it begins.
pub open spec fn text_le(a: Seq<char>, b: Seq<char>) -> bool
    decreases a.len(),
{
    if a.len() == 0 {
        true
    } else if b.len() == 0 {
        false
    } else if a[0] != b[0] {
        a[0] < b[0]
    } else {
        text_le(a.drop_first(), b.drop_first())
    }
}

/// Any two texts are ordered.
pub proof fn lemma_text_le_total(a: Seq<char>, b: Seq<char>)
    ensures
        text_le(a, b) || text_le(b, a),
    decreases a.len(),
{
    if a.len() > 0 && b.len() > 0 && a[0] == b[0] {
        lemma_text_le_total(a.drop_first(), b.drop_first());
    }
}

/// The order of texts is transitive.
pub proof fn lemma_text_le_trans(a: Seq<char>, b: Seq<char>, c: Seq<char>)
    requires
        text_le(a, b),
        text_le(b, c),
    ensures
        text_le(a, c),
    decreases a.len(),
{
    if a.len() > 0 && b.len() > 0 && c.len() > 0 && a[0] == b[0] && b[0] == c[0] {
        lemma_text_le_trans(a.drop_first(), b.drop_first(), c.drop_first());
    }
}

/// Every text sorts with itself.
pub proof fn law_text_le_reflexive(a: Seq<char>)
    ensures
        text_le(a, a),
    decreases a.len(),
{
    if a.len() > 0 {
        law_text_le_reflexive(a.drop_first());
    }
}

/// A text sorts strictly before every longer text it begins, as `String`
/// ordering has it.
pub proof fn law_text_prefix_first(p: Seq<char>, a: Seq<char>)
    requires
        p.len() < a.len(),
        p == a.subrange(0, p.len() as int),
    ensures
        text_le(p, a),
        !text_le(a, p),
    decreases p.len(),
{
    if p.len() > 0 {
        assert(p[0] == a[0]);
        assert(p.drop_first() =~= a.drop_first().subrange(0, p.drop_first().len() as int));
        law_text_prefix_first(p.drop_first(), a.drop_first());
    }
}

/// Texts that agree up to a position and differ there sort by the
/// characters at that position, as `String` ordering has it.
pub proof fn law_text_first_difference(a: Seq<char>, b: Seq<char>, k: int)
    requires
        0 <= k < a.len(),
        k < b.len(),
        a.subrange(0, k) == b.subrange(0, k),
        a[k] < b[k],
    ensures
        text_le(a, b),
        !text_le(b, a),
    decreases k,
{
    if k > 0 {
        assert(a[0] == a.subrange(0, k)[0]);
        assert(b[0] == b.subrange(0, k)[0]);
        assert(a.drop_first().subrange(0, k - 1) =~= a.subrange(0, k).drop_first());
        assert(b.drop_first().subrange(0, k - 1) =~= b.subrange(0, k).drop_first());
        law_text_first_difference(a.drop_first(), b.drop_first(), k - 1);
    }
}

/// Whether `a` sorts before or with `b`.
pub fn text_le_exec(a: &Vec<char>, b: &Vec<char>) -> (r: bool)
    ensures
        r == text_le(a@, b@),
{
    let mut i: usize = 0;
    assert(a@.subrange(0, a@.len() as int) =~= a@);
    assert(b@.subrange(0, b@.len() as int) =~= b@);
    while i < a.len()
        invariant
            i <= a@.len(),
            i <= b@.len(),
            a@.subrange(0, i as int) == b@.subrange(0, i as int),
            text_le(a@, b@) == text_le(a@.subrange(i as int, a@.len() as int), b@.subrange(i as int, b@.len() as int)),
        decreases a.len() - i,
    {
        if i == b.len() {
            return false;
        }
        if a[i] != b[i] {
            proof {
                let sa = a@.subrange(i as int, a@.len() as int);
                let sb = b@.subrange(i as int, b@.len() as int);
                assert(sa[0] == a@[i as int] && sb[0] == b@[i as int]);
            }
            return a[i] < b[i];
        }
        proof {
            let sa = a@.subrange(i as int, a@.len() as int);
            let sb = b@.subrange(i as int, b@.len() as int);
            assert(sa.drop_first() =~= a@.subrange(i + 1, a@.len() as int));
            assert(sb.drop_first() =~= b@.subrange(i + 1, b@.len() as int));
            assert(a@.subrange(0, i + 1) =~= a@.subrange(0, i as int).push(a@[i as int]));
            assert(b@.subrange(0, i + 1) =~= b@.subrange(0, i as int).push(b@[i as int]));
        }
        i = i + 1;
    }
    true
}

/// Templates ordered by name.
pub struct ByName;

impl Order<Template> for ByName {
    open spec fn le(&self, a: Template, b: Template) -> bool {
        text_le(a.name@, b.name@)
    }

    proof fn lemma_total(&self, a: Template, b: Template) {
        lemma_text_le_total(a.name@, b.name@);
    }

    proof fn lemma_trans(&self, a: Template, b: Template, c: Template) {
        lemma_text_le_trans(a.name@, b.name@, c.name@);
    }

    fn le_exec(&self, a: &Template, b: &Template) -> (r: bool) {
        text_le_exec(&chars_of(a.name.as_str()), &chars_of(b.name.as_str()))
    }
}

/// Keeps the templates of a project; a view other than 0, where one is
/// given, keeps none (templates are not yet assigned to views).
pub struct TemplateScope {
    pub project_id: i32,
    pub view_id: Option<i32>,
}

impl Selector<Template> for TemplateScope {
    open spec fn accepts(&self, t: Template) -> bool {
        &&& t.project_id == self.project_id
        &&& self.view_id matches Some(v) ==> v == 0
    }

    fn test(&self, t: &Template) -> (b: bool) {
        if t.project_id != self.project_id {
            return false;
        }
        match self.view_id {
            Some(v) => v == 0,
            None => true,
        }
    }
}

/// The template listing of a project: the page of the stored templates
/// (newest first) after the first `params.offset`, those of the project and
/// view, up to the one that makes their number exceed `params.count`;
/// then sorted by name, templates of the same name in page order.
pub fn select_templates(templates: &Vec<Template>, project_id: i32, filter: &TemplateFilter, params: &RetrieveQueryParams) -> (r: Vec<Template>)
    ensures
        sorted_by(r@, ByName),
        r@.to_multiset() == paged(templates@, params.offset as int, TemplateScope { project_id, view_id: filter.view_id }, params.count).to_multiset(),
        exists|p: Seq<int>| stable_arrangement(r@,
            paged(templates@, params.offset as int, TemplateScope { project_id, view_id: filter.view_id }, params.count), ByName, p),
{
    let page = take_page(templates, &TemplateScope { project_id, view_id: filter.view_id }, params.offset, params.count);
    sort_stable(&page, &ByName)
}

/// The template with a new description: none for an empty text.
pub fn describe_template(template: Template, description: String) -> (r: Template)
    ensures
        r == (Template {
            description: if description@.len() == 0 { None } else { Some(description) },
            ..template
        }),
{
    if description.as_str().is_empty() {
        Template { description: None, ..template }
    } else {
        Template { description: Some(description), ..template }
    }
}

impl BoltStore {
    /// Removes a template with its vaults and roles: the template's record
    /// goes, then the buckets `template_vaults_<id>` and `template_roles_<id>`.
    /// A template that is not stored gives `Шаблон не найден` and changes
    /// nothing.
    pub fn delete_template(&mut self, template_id: i32) -> (r: Result<(), DbError>)
        requires
            template_id >= 0,
        ensures
            final(self).counters() == old(self).counters(),
            final(self).path() == old(self).path(),
            match r {
                Ok(_) => {
                    &&& final(self).buckets().contains_key(templates_bucket())
                    &&& !final(self).buckets()[templates_bucket()].contains_key(record_key(template_id as int))
                    &&& !final(self).buckets().contains_key(owned_bucket_name("template_vaults_"@, template_id as int))
                    &&& !final(self).buckets().contains_key(owned_bucket_name("template_roles_"@, template_id as int))
                    &&& old(self).buckets().contains_key(templates_bucket()) ==> final(self).buckets()[templates_bucket()]
                        == old(self).buckets()[templates_bucket()].remove(record_key(template_id as int))
                },
                Err(DbError::NotFound(m)) => {
                    &&& m@ == template_missing()
                    &&& final(self).buckets().contains_key(templates_bucket())
                    &&& !final(self).buckets()[templates_bucket()].contains_key(record_key(template_id as int))
                    &&& old(self).buckets().contains_key(templates_bucket()) ==> final(self).buckets() == old(self).buckets()
                },
                Err(e) => e is Database,
            },
    {
        match self.remove_record("templates", template_id, "Шаблон не найден") {
            Ok(_) => {},
            Err(e) => { return Err(e); },
        }
        let vaults = owned_bucket("template_vaults_", template_id);
        let roles = owned_bucket("template_roles_", template_id);
        proof {
            reveal_strlit("templates");
            reveal_strlit("template_vaults_");
            reveal_strlit("template_roles_");
            assert(templates_bucket().len() == 9);
            assert(vaults@.len() > 9);
            assert(roles@.len() > 9);
        }
        match self.drop_bucket(vaults.as_str()) {
            Ok(_) => {},
            Err(e) => { return Err(e); },
        }
        match self.drop_bucket(roles.as_str()) {
            Ok(_) => {},
            Err(e) => { return Err(e); },
        }
        Ok(())
    }

    /// A new template as it is stored: created now, under the next number of
    /// the sequence of `templates`.
    pub fn new_template(&mut self, template: Template) -> (r: Result<Template, DbError>)
        ensures
            final(self).counters() == old(self).counters(),
            final(self).path() == old(self).path(),
            match r {
                Ok(x) => took_sequence(old(self).buckets(), final(self).buckets(), templates_bucket(), x.id)
                    && x == (Template { id: x.id, created: x.created, ..template }),
                Err(e) => sequence_failed(old(self).buckets(), final(self).buckets(), templates_bucket(), e),
            },
    {
        let id = match self.next_sequence("templates") {
            Ok(id) => id,
            Err(e) => { return Err(e); },
        };
        Ok(Template { id, created: now(), ..template })
    }
}

} // verus!
