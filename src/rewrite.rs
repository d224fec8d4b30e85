//! Moving a theme's templates into a namespace of their own.
use vstd::prelude::*;
use crate::engine::{
    copy_template, insert_template, registry, set_template_name, store_settings, template_entry, template_keys,
    TemplateView,
};
use crate::resolve::{make_theme_key, theme_key};

verus! {

/// `k` is the theme-scoped key of some entry of `m`.
pub open spec fn is_theme_copy(
    m: Map<Seq<char>, TemplateView>,
    theme: Seq<char>,
    k: Seq<char>,
) -> bool {
    exists|o: Seq<char>| m.contains_key(o) && k == theme_key(theme, o)
}

/// The store after renaming: every entry `o` also stands under
/// `theme/templates/o`, named so and otherwise the same, replacing what stood
/// there; the rest is kept.
pub open spec fn rewritten(
    m: Map<Seq<char>, TemplateView>,
    theme: Seq<char>,
) -> Map<Seq<char>, TemplateView> {
    Map::new(
        |k: Seq<char>| m.contains_key(k) || is_theme_copy(m, theme, k),
        |k: Seq<char>|
            if is_theme_copy(m, theme, k) {
                let o = choose|o: Seq<char>| m.contains_key(o) && k == theme_key(theme, o);
                (k, m[o].1, m[o].2, m[o].3)
            } else {
                m[k]
            },
    )
}

/// Two names with the same theme-scoped key are the same name.
pub proof fn lemma_theme_key_injective(theme: Seq<char>, a: Seq<char>, b: Seq<char>)
    requires
        theme_key(theme, a) == theme_key(theme, b),
    ensures
        a == b,
{
    let p = theme + "/templates/"@;
    assert(theme_key(theme, a) == p + a);
    assert(theme_key(theme, b) == p + b);
    assert(a =~= (p + a).subrange(p.len() as int, (p + a).len() as int));
    assert(b =~= (p + b).subrange(p.len() as int, (p + b).len() as int));
}

/// Stores a copy of every template of a theme under `theme/templates/<key>`,
/// named after its new key, so that it cannot collide with a site template of
/// the same name. The entries under the old keys stay, and parent references
/// are left as they are.
pub fn rewrite_theme_paths(tera_theme: &mut tera::Tera, theme: &str)
    ensures
        registry(*final(tera_theme)) == rewritten(registry(*old(tera_theme)), theme@),
        registry(*final(tera_theme)).dom().finite(),
        store_settings(*final(tera_theme)) == store_settings(*old(tera_theme)),
        registry(*old(tera_theme)).dom().len() == 0 ==> *final(tera_theme) == *old(tera_theme),
{
    let ghost m = registry(*tera_theme);
    let ghost t0 = *tera_theme;
    let keys = template_keys(tera_theme);
    proof {
        let ks = keys@.map_values(|s: String| s@);
        vstd::seq_lib::seq_to_set_is_finite(ks);
        if keys@.len() > 0 {
            assert(ks.to_set().contains(ks[0]));
            vstd::set_lib::lemma_set_empty_equivalency_len(ks.to_set());
        }
    }
    let mut names: Vec<String> = Vec::new();
    let mut copies: Vec<tera::Template> = Vec::new();
    let mut i: usize = 0;
    while i < keys.len()
        invariant
            i <= keys@.len(),
            names@.len() == i,
            copies@.len() == i,
            registry(*tera_theme) == m,
            forall|j: int| 0 <= j < keys@.len() ==> m.contains_key(#[trigger] keys@[j]@),
            forall|j: int| 0 <= j < i ==> #[trigger] names@[j]@ == theme_key(theme@, keys@[j]@),
            forall|j: int| 0 <= j < i ==> #[trigger] template_entry(copies@[j]) == (
                theme_key(theme@, keys@[j]@),
                m[keys@[j]@].1,
                m[keys@[j]@].2,
                m[keys@[j]@].3,
            ),
        decreases keys@.len() - i,
    {
        let name = make_theme_key(theme, keys[i].as_str());
        let mut copy = copy_template(tera_theme, keys[i].as_str());
        set_template_name(&mut copy, name.clone());
        names.push(name);
        copies.push(copy);
        i = i + 1;
    }
    let n: usize = i;
    while names.len() > 0
        invariant
            n == keys@.len(),
            names@.len() == copies@.len(),
            names@.len() <= n,
            registry(*tera_theme).dom().finite(),
            store_settings(*tera_theme) == store_settings(t0),
            m.dom().len() == 0 ==> n == 0 && *tera_theme == t0,
            forall|j: int| 0 <= j < keys@.len() ==> m.contains_key(#[trigger] keys@[j]@),
            forall|j: int| 0 <= j < names@.len() ==> #[trigger] names@[j]@ == theme_key(theme@, keys@[j]@),
            forall|j: int| 0 <= j < copies@.len() ==> #[trigger] template_entry(copies@[j]) == (
                theme_key(theme@, keys@[j]@),
                m[keys@[j]@].1,
                m[keys@[j]@].2,
                m[keys@[j]@].3,
            ),
            forall|k: Seq<char>| #[trigger] registry(*tera_theme).contains_key(k) <==> (
                m.contains_key(k) || exists|j: int| names@.len() <= j < n && k == theme_key(theme@, keys@[j]@)
            ),
            forall|j: int| names@.len() <= j < n ==> #[trigger] registry(*tera_theme)[theme_key(theme@, keys@[j]@)] == (
                theme_key(theme@, keys@[j]@),
                m[keys@[j]@].1,
                m[keys@[j]@].2,
                m[keys@[j]@].3,
            ),
            forall|k: Seq<char>| m.contains_key(k) && (forall|j: int| names@.len() <= j < n ==> k != #[trigger] theme_key(theme@, keys@[j]@))
                ==> #[trigger] registry(*tera_theme)[k] == m[k],
        decreases names@.len(),
    {
        let name = names.pop().unwrap();
        let copy = copies.pop().unwrap();
        insert_template(tera_theme, name, copy);
        proof {
            let p = names@.len() as int;
            assert forall|j: int| p < j < n && theme_key(theme@, keys@[j]@) == theme_key(theme@, keys@[p]@)
                implies keys@[j]@ == keys@[p]@ by {
                lemma_theme_key_injective(theme@, keys@[j]@, keys@[p]@);
            }
        }
    }
    proof {
        let r = registry(*tera_theme);
        let w = rewritten(m, theme@);
        assert forall|k: Seq<char>| r.contains_key(k) <==> w.contains_key(k) by {
            if r.contains_key(k) && !m.contains_key(k) {
                let j = choose|j: int| 0 <= j < n && k == theme_key(theme@, keys@[j]@);
                assert(m.contains_key(keys@[j]@));
            }
            if is_theme_copy(m, theme@, k) {
                let o = choose|o: Seq<char>| m.contains_key(o) && k == theme_key(theme@, o);
                let j = choose|j: int| 0 <= j < keys@.len() && keys@[j]@ == o;
            }
        }
        assert forall|k: Seq<char>| r.contains_key(k) implies r[k] == w[k] by {
            if is_theme_copy(m, theme@, k) {
                let o = choose|o: Seq<char>| m.contains_key(o) && k == theme_key(theme@, o);
                let j = choose|j: int| 0 <= j < keys@.len() && keys@[j]@ == o;
                assert(r[theme_key(theme@, keys@[j]@)] == (theme_key(theme@, keys@[j]@), m[keys@[j]@].1, m[keys@[j]@].2, m[keys@[j]@].3));
            } else {
                assert forall|j: int| 0 <= j < n implies k != #[trigger] theme_key(theme@, keys@[j]@) by {
                    if k == theme_key(theme@, keys@[j]@) {
                        assert(m.contains_key(keys@[j]@));
                    }
                }
            }
        }
        assert(r =~= w);
    }
}

} // verus!
