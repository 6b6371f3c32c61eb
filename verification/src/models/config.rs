//! Application configuration: model credentials and publishing targets.

use crate::text::{clone_option, equal, option_text};
use vstd::prelude::*;

verus! {

/// Credentials of the vision API.
#[derive(Debug, PartialEq, Eq)]
pub struct OpenAIConfig {
    pub api_url: String,
    pub api_key: String,
}

/// Mathematical value of an [`OpenAIConfig`].
pub struct OpenAIConfigView {
    pub api_url: Seq<char>,
    pub api_key: Seq<char>,
}

impl View for OpenAIConfig {
    type V = OpenAIConfigView;

    open spec fn view(&self) -> OpenAIConfigView {
        OpenAIConfigView { api_url: self.api_url@, api_key: self.api_key@ }
    }
}

impl Clone for OpenAIConfig {
    fn clone(&self) -> (r: Self)
        ensures
            r@ == self@,
    {
        OpenAIConfig { api_url: self.api_url.clone(), api_key: self.api_key.clone() }
    }
}

/// A WordPress site that images can be published to.
#[derive(Debug, PartialEq, Eq)]
pub struct WordPressSite {
    pub id: String,
    pub site_url: String,
    pub username: String,
    pub app_password: String,
    pub context: Option<String>,
    pub convert_to_webp: Option<bool>,
    pub quality: Option<u8>,
    pub max_width: Option<u32>,
}

/// Mathematical value of a [`WordPressSite`].
pub struct WordPressSiteView {
    pub id: Seq<char>,
    pub site_url: Seq<char>,
    pub username: Seq<char>,
    pub app_password: Seq<char>,
    pub context: Option<Seq<char>>,
    pub convert_to_webp: Option<bool>,
    pub quality: Option<u8>,
    pub max_width: Option<u32>,
}

impl View for WordPressSite {
    type V = WordPressSiteView;

    open spec fn view(&self) -> WordPressSiteView {
        WordPressSiteView {
            id: self.id@,
            site_url: self.site_url@,
            username: self.username@,
            app_password: self.app_password@,
            context: option_text(self.context),
            convert_to_webp: self.convert_to_webp,
            quality: self.quality,
            max_width: self.max_width,
        }
    }
}

impl Clone for WordPressSite {
    fn clone(&self) -> (r: Self)
        ensures
            r@ == self@,
    {
        WordPressSite {
            id: self.id.clone(),
            site_url: self.site_url.clone(),
            username: self.username.clone(),
            app_password: self.app_password.clone(),
            context: clone_option(&self.context),
            convert_to_webp: self.convert_to_webp,
            quality: self.quality,
            max_width: self.max_width,
        }
    }
}

/// Settings of the image optimizer.
#[derive(Debug, Clone, Copy, PartialEq, Eq, Structural)]
pub struct ImageOptimizerConfig {
    pub convert_to_webp: bool,
    pub max_width: u32,
    pub quality: u8,
}

/// Everything the application is configured with.
#[derive(Debug, PartialEq, Eq)]
pub struct AppConfig {
    pub openai: Option<OpenAIConfig>,
    pub wordpress_sites: Vec<WordPressSite>,
    pub image_optimizer: ImageOptimizerConfig,
}

/// Mathematical value of an [`AppConfig`].
pub struct AppConfigView {
    pub openai: Option<OpenAIConfigView>,
    pub wordpress_sites: Seq<WordPressSiteView>,
    pub image_optimizer: ImageOptimizerConfig,
}

impl View for AppConfig {
    type V = AppConfigView;

    open spec fn view(&self) -> AppConfigView {
        AppConfigView {
            openai: match self.openai {
                Some(c) => Some(c@),
                None => None,
            },
            wordpress_sites: self.wordpress_sites@.map_values(|s: WordPressSite| s@),
            image_optimizer: self.image_optimizer,
        }
    }
}

impl Clone for AppConfig {
    fn clone(&self) -> (r: Self)
        ensures
            r@ == self@,
    {
        let mut sites: Vec<WordPressSite> = Vec::new();
        for i in 0..self.wordpress_sites.len()
            invariant
                sites.len() == i,
                forall|j: int| 0 <= j < i ==> sites@[j]@ == self.wordpress_sites@[j]@,
        {
            sites.push(self.wordpress_sites[i].clone());
        }
        let r = AppConfig {
            openai: match &self.openai {
                Some(c) => Some(c.clone()),
                None => None,
            },
            wordpress_sites: sites,
            image_optimizer: self.image_optimizer,
        };
        assert(r@.wordpress_sites =~= self@.wordpress_sites);
        r
    }
}

/// Whether some site in `sites` is called `id`.
pub open spec fn has_site(sites: Seq<WordPressSiteView>, id: Seq<char>) -> bool {
    exists|i: int| 0 <= i < sites.len() && sites[i].id == id
}

/// Whether `i` is the position of the first site in `sites` called `id`.
pub open spec fn first_site_at(sites: Seq<WordPressSiteView>, id: Seq<char>, i: int) -> bool {
    &&& 0 <= i < sites.len()
    &&& sites[i].id == id
    &&& forall|j: int| 0 <= j < i ==> sites[j].id != id
}

/// The first site in `sites` called `id`.
pub open spec fn site_named(sites: Seq<WordPressSiteView>, id: Seq<char>) -> Option<
    WordPressSiteView,
> {
    if has_site(sites, id) {
        Some(sites[choose|i: int| first_site_at(sites, id, i)])
    } else {
        None
    }
}

/// Whether no two sites in `sites` share an id.
pub open spec fn distinct_ids(sites: Seq<WordPressSiteView>) -> bool {
    forall|i: int, j: int| 0 <= i < j < sites.len() ==> sites[i].id != sites[j].id
}

/// The first site called `id` is the site found at position `i`.
pub proof fn lemma_first_site(sites: Seq<WordPressSiteView>, id: Seq<char>, i: int)
    requires
        first_site_at(sites, id, i),
    ensures
        site_named(sites, id) == Some(sites[i]),
{
    let k = choose|k: int| first_site_at(sites, id, k);
    if k < i {
    } else if i < k {
    }
}

/// Where ids are distinct, a lookup by a site's own id finds that site.
pub proof fn lemma_lookup_distinct(sites: Seq<WordPressSiteView>, i: int)
    requires
        distinct_ids(sites),
        0 <= i < sites.len(),
    ensures
        site_named(sites, sites[i].id) == Some(sites[i]),
{
    assert(first_site_at(sites, sites[i].id, i));
    lemma_first_site(sites, sites[i].id, i);
}

impl AppConfigView {
    /// Whether the configuration keeps its invariant: site ids are unique.
    pub open spec fn well_formed(self) -> bool {
        distinct_ids(self.wordpress_sites)
    }
}

impl AppConfig {
    /// Finds the configured site called `id`.
    pub fn find_site(&self, id: &str) -> (found: Option<&WordPressSite>)
        ensures
            match found {
                Some(site) => site_named(self@.wordpress_sites, id@) == Some(site@),
                None => site_named(self@.wordpress_sites, id@) is None,
            },
    {
        let ghost sites = self@.wordpress_sites;
        let mut i: usize = 0;
        while i < self.wordpress_sites.len()
            invariant
                i <= self.wordpress_sites.len(),
                sites == self@.wordpress_sites,
                forall|j: int| 0 <= j < i ==> sites[j].id != id@,
            decreases self.wordpress_sites.len() - i,
        {
            if equal(self.wordpress_sites[i].id.as_str(), id) {
                proof {
                    lemma_first_site(sites, id@, i as int);
                }
                return Some(&self.wordpress_sites[i]);
            }
            i += 1;
        }
        None
    }
}

impl Default for AppConfig {
    /// The configuration of a fresh installation: no credentials, no sites,
    /// and images converted to WebP at quality 85, at most 1920 wide.
    fn default() -> (config: Self)
        ensures
            config@.openai is None,
            config@.wordpress_sites == Seq::<WordPressSiteView>::empty(),
            config@.image_optimizer == (ImageOptimizerConfig {
                convert_to_webp: true,
                max_width: 1920,
                quality: 85,
            }),
    {
        let config = AppConfig {
            openai: None,
            wordpress_sites: Vec::new(),
            image_optimizer: ImageOptimizerConfig {
                convert_to_webp: true,
                max_width: 1920,
                quality: 85,
            },
        };
        assert(config@.wordpress_sites =~= Seq::<WordPressSiteView>::empty());
        config
    }
}

} // verus!
