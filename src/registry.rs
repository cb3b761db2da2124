//! The known providers, in registration order, and dispatch by maker name.

use vstd::prelude::*;
use crate::koizumi::{encode_plus, koizumi_handles, KoizumiProvider, DETAIL_PATH, KOIZUMI_BASE_URL};
use crate::archive::opt_view;
use crate::session::{lookup_send_prefix, not_found_message, page_link};
use crate::provider::{all_ascii, ascii_fold, lower_of, to_lower, FetchError, ManufacturerProvider, ProductInfo};
use crate::tokistar::{
    partial_fixture_id, tokistar_handles, TokistarProvider, SEARCH_PATH, TOKISTAR_BASE_URL,
};

verus! {

/// One registered provider.
#[derive(Debug, Clone, PartialEq, Eq)]
pub enum Provider {
    Koizumi(KoizumiProvider),
    Tokistar(TokistarProvider),
}

impl ManufacturerProvider for Provider {
    open spec fn spec_display_name(&self) -> Seq<char> {
        match self {
            Provider::Koizumi(p) => p.spec_display_name(),
            Provider::Tokistar(p) => p.spec_display_name(),
        }
    }

    open spec fn handles(&self, folded: Seq<char>) -> bool {
        match self {
            Provider::Koizumi(p) => p.handles(folded),
            Provider::Tokistar(p) => p.handles(folded),
        }
    }

    open spec fn spec_filename(
        &self,
        spec_no: Seq<char>,
        model_number: Seq<char>,
        psu: Option<Seq<char>>,
        original_filename: Option<Seq<char>>,
    ) -> Seq<char> {
        match self {
            Provider::Koizumi(p) => p.spec_filename(spec_no, model_number, psu, original_filename),
            Provider::Tokistar(p) => p.spec_filename(spec_no, model_number, psu, original_filename),
        }
    }

    fn display_name(&self) -> (r: &str) {
        match self {
            Provider::Koizumi(p) => p.display_name(),
            Provider::Tokistar(p) => p.display_name(),
        }
    }

    fn can_handle_folded(&self, folded: &str) -> (r: bool) {
        match self {
            Provider::Koizumi(p) => p.can_handle_folded(folded),
            Provider::Tokistar(p) => p.can_handle_folded(folded),
        }
    }

    fn generate_filename(
        &self,
        spec_no: &str,
        model_number: &str,
        psu: Option<&str>,
        original_filename: Option<&str>,
    ) -> (r: String) {
        match self {
            Provider::Koizumi(p) => p.generate_filename(spec_no, model_number, psu, original_filename),
            Provider::Tokistar(p) => p.generate_filename(spec_no, model_number, psu, original_filename),
        }
    }
}

/// `i` is the first position in `ps` whose provider handles `folded`.
pub open spec fn is_first_handler(ps: Seq<Provider>, folded: Seq<char>, i: int) -> bool {
    &&& 0 <= i < ps.len()
    &&& ps[i].handles(folded)
    &&& forall|j: int| 0 <= j < i ==> !(#[trigger] ps[j]).handles(folded)
}

/// The position of the first provider in `ps` that handles the lowercased
/// name `folded`, if any does.
pub open spec fn first_handler(ps: Seq<Provider>, folded: Seq<char>) -> Option<int> {
    if exists|i: int| 0 <= i < ps.len() && ps[i].handles(folded) {
        Some(choose|i: int| is_first_handler(ps, folded, i))
    } else {
        None
    }
}

/// The ordered providers, fixed once a run starts.
pub struct ProviderRegistry {
    providers: Vec<Provider>,
}

impl ProviderRegistry {
    /// The registered providers, in order.
    pub closed spec fn spec_providers(&self) -> Seq<Provider> {
        self.providers@
    }

    /// The provider dispatch picks for a maker name: the first one that
    /// handles its lowercase form.
    pub open spec fn provider_for(&self, manufacturer: Seq<char>) -> Option<int> {
        first_handler(self.spec_providers(), lower_of(manufacturer))
    }

    /// A registry holding no provider.
    pub fn empty() -> (r: Self)
        ensures
            r.spec_providers() == Seq::<Provider>::empty(),
    {
        ProviderRegistry { providers: Vec::new() }
    }

    /// The registry of the known makers: Koizumi Lighting, then TOKISTAR.
    pub fn new() -> (r: Self)
        ensures
            r.spec_providers().len() == 2,
            r.spec_providers()[0] matches Provider::Koizumi(p) && p.base_url@ == KOIZUMI_BASE_URL@,
            r.spec_providers()[1] matches Provider::Tokistar(p) && p.base_url@ == TOKISTAR_BASE_URL@,
    {
        let mut registry = Self::empty();
        registry.register(Provider::Koizumi(KoizumiProvider::new()));
        registry.register(Provider::Tokistar(TokistarProvider::new()));
        registry
    }

    /// Adds a provider after those already registered.
    pub fn register(&mut self, provider: Provider)
        ensures
            final(self).spec_providers() == old(self).spec_providers().push(provider),
    {
        self.providers.push(provider);
    }

    /// The number of registered providers.
    pub fn len(&self) -> (r: usize)
        ensures
            r == self.spec_providers().len(),
    {
        self.providers.len()
    }

    /// The position of the first provider that handles the lowercased maker
    /// name `folded`, if any does.
    pub fn provider_index_folded(&self, folded: &str) -> (r: Option<usize>)
        ensures
            match r {
                Some(i) => i < self.spec_providers().len() && first_handler(self.spec_providers(), folded@)
                    == Some(i as int),
                None => first_handler(self.spec_providers(), folded@) is None,
            },
    {
        let ghost f = folded@;
        let ghost ps = self.providers@;
        let mut i: usize = 0;
        while i < self.providers.len()
            invariant
                folded@ == f,
                ps == self.providers@,
                i <= ps.len(),
                forall|j: int| 0 <= j < i ==> !(#[trigger] ps[j]).handles(f),
            decreases ps.len() - i,
        {
            if self.providers[i].can_handle_folded(folded) {
                proof {
                    assert(0 <= i < ps.len() && ps[i as int].handles(f));
                    assert(is_first_handler(ps, f, i as int));
                    let c = choose|c: int| is_first_handler(ps, f, c);
                    if c < i {
                        assert(!ps[c].handles(f));
                    }
                    if c > i {
                        assert(!ps[i as int].handles(f));
                    }
                    assert(c == i);
                }
                return Some(i);
            }
            i += 1;
        }
        None
    }

    /// The position of the provider for `manufacturer`, if any handles it.
    pub fn provider_index(&self, manufacturer: &str) -> (r: Option<usize>)
        ensures
            match r {
                Some(i) => i < self.spec_providers().len() && self.provider_for(manufacturer@) == Some(
                    i as int,
                ),
                None => self.provider_for(manufacturer@) is None,
            },
            all_ascii(manufacturer@) ==> match r {
                Some(i) => first_handler(self.spec_providers(), ascii_fold(manufacturer@)) == Some(i as int),
                None => first_handler(self.spec_providers(), ascii_fold(manufacturer@)) is None,
            },
    {
        let folded = to_lower(manufacturer);
        self.provider_index_folded(folded.as_str())
    }

    /// The provider for `manufacturer`: the first registered one that handles
    /// it, regardless of case.
    pub fn get_provider(&self, manufacturer: &str) -> (r: Option<&Provider>)
        ensures
            match r {
                Some(p) => exists|i: int|
                    0 <= i < self.spec_providers().len() && self.provider_for(manufacturer@) == Some(i)
                        && *p == self.spec_providers()[i],
                None => self.provider_for(manufacturer@) is None,
            },
    {
        match self.provider_index(manufacturer) {
            Some(i) => Some(&self.providers[i]),
            None => None,
        }
    }

    /// The provider at position `i`.
    pub fn provider_at(&self, i: usize) -> (r: &Provider)
        requires
            i < self.spec_providers().len(),
        ensures
            *r == self.spec_providers()[i as int],
    {
        &self.providers[i]
    }

    /// Whether some provider handles `manufacturer`.
    pub fn is_supported(&self, manufacturer: &str) -> (r: bool)
        ensures
            r == self.provider_for(manufacturer@) is Some,
    {
        self.provider_index(manufacturer).is_some()
    }

    /// The display names of the providers, in registration order.
    pub fn get_supported_manufacturers(&self) -> (r: Vec<String>)
        ensures
            r@.map_values(|s: String| s@) == self.spec_providers().map_values(
                |p: Provider| p.spec_display_name(),
            ),
    {
        let mut r: Vec<String> = Vec::new();
        let mut i: usize = 0;
        while i < self.providers.len()
            invariant
                i <= self.providers@.len(),
                r@.len() == i,
                forall|k: int| 0 <= k < i ==> (#[trigger] r@[k])@ == self.providers@[k].spec_display_name(),
            decreases self.providers@.len() - i,
        {
            let name = String::from_str(self.providers[i].display_name());
            r.push(name);
            i += 1;
        }
        assert(r@.map_values(|s: String| s@) =~= self.providers@.map_values(
            |p: Provider| p.spec_display_name(),
        ));
        r
    }
}

impl Default for ProviderRegistry {
    fn default() -> (r: Self)
        ensures
            r.spec_providers().len() == 2,
            r.spec_providers()[0] matches Provider::Koizumi(p) && p.base_url@ == KOIZUMI_BASE_URL@,
            r.spec_providers()[1] matches Provider::Tokistar(p) && p.base_url@ == TOKISTAR_BASE_URL@,
    {
        Self::new()
    }
}

/// The page a product is looked up on: Koizumi Lighting's detail page for
/// the model, or TOKISTAR's search for the part before its first `-`.
pub open spec fn product_lookup_url(p: Provider, model: Seq<char>) -> Seq<char> {
    match p {
        Provider::Koizumi(k) => k.base_url@ + DETAIL_PATH@ + encode_plus(model),
        Provider::Tokistar(t) => t.base_url@ + SEARCH_PATH@ + partial_fixture_id(model),
    }
}

/// The key a product is looked up by: the model number itself for Koizumi
/// Lighting, the part before its first `-` for TOKISTAR.
pub open spec fn product_lookup_key(p: Provider, model: Seq<char>) -> Seq<char> {
    match p {
        Provider::Koizumi(_) => model,
        Provider::Tokistar(_) => partial_fixture_id(model),
    }
}

/// The product page reported for a model: Koizumi Lighting's detail page
/// (the model as given), or TOKISTAR's search page.
pub open spec fn product_page_url(p: Provider, model: Seq<char>) -> Seq<char> {
    match p {
        Provider::Koizumi(k) => k.base_url@ + DETAIL_PATH@ + model,
        Provider::Tokistar(t) => t.base_url@ + SEARCH_PATH@ + partial_fixture_id(model),
    }
}

impl Provider {
    /// The page to fetch to learn about `model_number`.
    pub fn product_lookup_url(&self, model_number: &str) -> (r: String)
        ensures
            r@ == product_lookup_url(*self, model_number@),
    {
        match self {
            Provider::Koizumi(k) => k.detail_page_url(model_number),
            Provider::Tokistar(t) => {
                let partial = TokistarProvider::extract_partial_fixture_id(model_number);
                t.search_page_url(partial.as_str())
            },
        }
    }

    /// What is known of `model_number` once its lookup page has been requested.
    pub fn product_info_from_page(&self, model_number: &str, page: Result<String, FetchError>) -> (r: Result<ProductInfo, String>)
        ensures
            match page {
                Err(FetchError::Send(e)) => r is Err && r->Err_0@ == lookup_send_prefix(*self) + e@,
                Err(FetchError::Read(e)) => r is Err && r->Err_0@ == "Failed to read response: "@ + e@,
                Ok(html) => match page_link(*self, html@) {
                    None => r is Err && r->Err_0@ == not_found_message(
                        *self,
                        seq![product_lookup_key(*self, model_number@)],
                    ),
                    Some(u) => r is Ok && {
                        let info = r->Ok_0;
                        &&& info.model_number@ == model_number@
                        &&& info.product_name is None
                        &&& info.price is None
                        &&& info.image_url is None
                        &&& opt_view(info.ies_file_url) == Some(u)
                        &&& opt_view(info.product_page_url) == Some(product_page_url(*self, model_number@))
                    },
                },
            },
    {
        match self {
            Provider::Koizumi(k) => k.product_info_from_page(model_number, page),
            Provider::Tokistar(t) => t.product_info_from_page(model_number, page),
        }
    }
}

impl ProviderRegistry {
    /// The position of the provider for `manufacturer`, or the error that no
    /// provider handles it.
    pub fn provider_or_error(&self, manufacturer: &str) -> (r: Result<usize, String>)
        ensures
            match r {
                Ok(i) => i < self.spec_providers().len() && self.provider_for(manufacturer@) == Some(i as int),
                Err(e) => self.provider_for(manufacturer@) is None && e@ == "No provider for manufacturer: "@
                    + manufacturer@,
            },
    {
        match self.provider_index(manufacturer) {
            Some(i) => Ok(i),
            None => Err(String::from_str("No provider for manufacturer: ").concat(manufacturer)),
        }
    }
}

/// Dispatch looks only at the lowercase form of the maker name: two names
/// that lowercase alike reach the same provider.
pub proof fn lemma_dispatch_ignores_case(reg: ProviderRegistry, a: Seq<char>, b: Seq<char>)
    requires
        lower_of(a) == lower_of(b),
    ensures
        reg.provider_for(a) == reg.provider_for(b),
{
}

/// In the default registry every spelling of a maker, in any script, reaches
/// that maker's provider: a lowercased name containing a Koizumi spelling
/// reaches Koizumi Lighting, and one containing a TOKISTAR spelling (and no
/// Koizumi one) reaches TOKISTAR. `provider_for` applies this to the
/// lowercase form of a name; for ASCII names, `provider_index` to `ascii_fold`.
pub proof fn lemma_dispatch_by_any_spelling(reg: ProviderRegistry, folded: Seq<char>)
    requires
        reg.spec_providers().len() == 2,
        reg.spec_providers()[0] is Koizumi,
        reg.spec_providers()[1] is Tokistar,
    ensures
        koizumi_handles(folded) ==> first_handler(reg.spec_providers(), folded) == Some(0int),
        !koizumi_handles(folded) && tokistar_handles(folded) ==> first_handler(reg.spec_providers(), folded)
            == Some(1int),
        !koizumi_handles(folded) && !tokistar_handles(folded) ==> first_handler(reg.spec_providers(), folded)
            is None,
{
    let ps = reg.spec_providers();
    let f = folded;
    if koizumi_handles(f) {
        assert(ps[0].handles(f));
        assert(is_first_handler(ps, f, 0));
        let c = choose|c: int| is_first_handler(ps, f, c);
        if c > 0 {
            assert(!ps[0].handles(f));
        }
    } else if tokistar_handles(f) {
        assert(ps[1].handles(f));
        assert(!ps[0].handles(f));
        assert(is_first_handler(ps, f, 1));
        let c = choose|c: int| is_first_handler(ps, f, c);
        if c > 1 {
            assert(!ps[1].handles(f));
        }
    } else {
        assert(!ps[0].handles(f));
        assert(!ps[1].handles(f));
    }
}

} // verus!
