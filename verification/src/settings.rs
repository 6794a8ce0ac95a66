//! The settings of a landscape. They customize how a landscape is shown:
//! the groups that appear, the categories that belong to each of them, the
//! colours, the criteria by which items are featured.

use crate::data::Category;
use crate::data::CategoryName;
use crate::data::CategoryView;
use vstd::prelude::*;

verus! {

/// Landscape settings.
#[derive(Debug, Clone, PartialEq)]
pub struct LandscapeSettings {
    pub foundation: String,
    pub images: Images,
    pub categories: Option<Vec<Category>>,
    pub colors: Option<Colors>,
    pub featured_items: Option<Vec<FeaturedItemRule>>,
    pub grid_items_size: Option<GridItemsSize>,
    pub groups: Option<Vec<Group>>,
    pub members_category: Option<String>,
    pub social_networks: Option<SocialNetworks>,
}

/// Colors used across the landscape UI.
#[derive(Debug, Clone, PartialEq)]
pub struct Colors {
    pub color1: String,
    pub color2: String,
    pub color3: String,
    pub color4: String,
    pub color5: String,
    pub color6: String,
}

/// Featured item rule information. A featured item is specially highlighted
/// in the web application, usually making it larger with some special
/// styling. These rules are used to decide which items should be featured.
#[derive(Debug, Clone, PartialEq)]
pub struct FeaturedItemRule {
    pub field: String,
    pub options: Vec<FeaturedItemRuleOption>,
}

/// Featured item rule option.
#[derive(Debug, Clone, PartialEq)]
pub struct FeaturedItemRuleOption {
    pub value: String,
    pub label: Option<String>,
    pub order: Option<usize>,
}

/// Grid items size.
#[derive(Debug, Clone, Copy, PartialEq, Eq, Structural)]
pub enum GridItemsSize {
    Small,
    Medium,
    Large,
}

/// Landscape group. A group provides a mechanism to organize sets of
/// categories in the web application.
#[derive(Debug, Clone, PartialEq)]
pub struct Group {
    pub name: String,
    pub categories: Vec<CategoryName>,
}

/// Images urls.
#[derive(Debug, Clone, PartialEq)]
pub struct Images {
    pub favicon: Option<String>,
    pub footer_logo: Option<String>,
    pub header_logo: Option<String>,
    pub open_graph: Option<String>,
}

/// Social networks urls.
#[derive(Debug, Clone, PartialEq)]
pub struct SocialNetworks {
    pub facebook: Option<String>,
    pub flickr: Option<String>,
    pub github: Option<String>,
    pub instagram: Option<String>,
    pub linkedin: Option<String>,
    pub slack: Option<String>,
    pub twitch: Option<String>,
    pub twitter: Option<String>,
    pub wechat: Option<String>,
    pub youtube: Option<String>,
}

/// The mathematical value of [`LandscapeSettings`].
pub struct LandscapeSettingsView {
    pub foundation: Seq<char>,
    pub images: ImagesView,
    pub categories: Option<Seq<CategoryView>>,
    pub colors: Option<ColorsView>,
    pub featured_items: Option<Seq<FeaturedItemRuleView>>,
    pub grid_items_size: Option<GridItemsSize>,
    pub groups: Option<Seq<GroupView>>,
    pub members_category: Option<Seq<char>>,
    pub social_networks: Option<SocialNetworksView>,
}

/// The mathematical value of [`Colors`].
pub struct ColorsView {
    pub color1: Seq<char>,
    pub color2: Seq<char>,
    pub color3: Seq<char>,
    pub color4: Seq<char>,
    pub color5: Seq<char>,
    pub color6: Seq<char>,
}

/// The mathematical value of a [`FeaturedItemRule`].
pub struct FeaturedItemRuleView {
    pub field: Seq<char>,
    pub options: Seq<FeaturedItemRuleOptionView>,
}

/// The mathematical value of a [`FeaturedItemRuleOption`].
pub struct FeaturedItemRuleOptionView {
    pub value: Seq<char>,
    pub label: Option<Seq<char>>,
    pub order: Option<usize>,
}

/// The mathematical value of a [`Group`].
pub struct GroupView {
    pub name: Seq<char>,
    pub categories: Seq<Seq<char>>,
}

/// The mathematical value of [`Images`].
pub struct ImagesView {
    pub favicon: Option<Seq<char>>,
    pub footer_logo: Option<Seq<char>>,
    pub header_logo: Option<Seq<char>>,
    pub open_graph: Option<Seq<char>>,
}

/// The mathematical value of [`SocialNetworks`].
pub struct SocialNetworksView {
    pub facebook: Option<Seq<char>>,
    pub flickr: Option<Seq<char>>,
    pub github: Option<Seq<char>>,
    pub instagram: Option<Seq<char>>,
    pub linkedin: Option<Seq<char>>,
    pub slack: Option<Seq<char>>,
    pub twitch: Option<Seq<char>>,
    pub twitter: Option<Seq<char>>,
    pub wechat: Option<Seq<char>>,
    pub youtube: Option<Seq<char>>,
}

impl DeepView for LandscapeSettings {
    type V = LandscapeSettingsView;

    open spec fn deep_view(&self) -> LandscapeSettingsView {
        LandscapeSettingsView {
            foundation: self.foundation@,
            images: self.images@,
            categories: self.categories.deep_view(),
            colors: self.colors.deep_view(),
            featured_items: self.featured_items.deep_view(),
            grid_items_size: self.grid_items_size,
            groups: self.groups.deep_view(),
            members_category: self.members_category.deep_view(),
            social_networks: self.social_networks.deep_view(),
        }
    }
}

impl View for LandscapeSettings {
    type V = LandscapeSettingsView;

    open spec fn view(&self) -> LandscapeSettingsView {
        self.deep_view()
    }
}

impl DeepView for Colors {
    type V = ColorsView;

    open spec fn deep_view(&self) -> ColorsView {
        ColorsView {
            color1: self.color1@,
            color2: self.color2@,
            color3: self.color3@,
            color4: self.color4@,
            color5: self.color5@,
            color6: self.color6@,
        }
    }
}

impl View for Colors {
    type V = ColorsView;

    open spec fn view(&self) -> ColorsView {
        self.deep_view()
    }
}

impl DeepView for FeaturedItemRule {
    type V = FeaturedItemRuleView;

    open spec fn deep_view(&self) -> FeaturedItemRuleView {
        FeaturedItemRuleView { field: self.field@, options: self.options.deep_view() }
    }
}

impl View for FeaturedItemRule {
    type V = FeaturedItemRuleView;

    open spec fn view(&self) -> FeaturedItemRuleView {
        self.deep_view()
    }
}

impl DeepView for FeaturedItemRuleOption {
    type V = FeaturedItemRuleOptionView;

    open spec fn deep_view(&self) -> FeaturedItemRuleOptionView {
        FeaturedItemRuleOptionView {
            value: self.value@,
            label: self.label.deep_view(),
            order: self.order,
        }
    }
}

impl View for FeaturedItemRuleOption {
    type V = FeaturedItemRuleOptionView;

    open spec fn view(&self) -> FeaturedItemRuleOptionView {
        self.deep_view()
    }
}

impl DeepView for Group {
    type V = GroupView;

    open spec fn deep_view(&self) -> GroupView {
        GroupView { name: self.name@, categories: self.categories.deep_view() }
    }
}

impl View for Group {
    type V = GroupView;

    open spec fn view(&self) -> GroupView {
        self.deep_view()
    }
}

impl DeepView for Images {
    type V = ImagesView;

    open spec fn deep_view(&self) -> ImagesView {
        ImagesView {
            favicon: self.favicon.deep_view(),
            footer_logo: self.footer_logo.deep_view(),
            header_logo: self.header_logo.deep_view(),
            open_graph: self.open_graph.deep_view(),
        }
    }
}

impl View for Images {
    type V = ImagesView;

    open spec fn view(&self) -> ImagesView {
        self.deep_view()
    }
}

impl DeepView for SocialNetworks {
    type V = SocialNetworksView;

    open spec fn deep_view(&self) -> SocialNetworksView {
        SocialNetworksView {
            facebook: self.facebook.deep_view(),
            flickr: self.flickr.deep_view(),
            github: self.github.deep_view(),
            instagram: self.instagram.deep_view(),
            linkedin: self.linkedin.deep_view(),
            slack: self.slack.deep_view(),
            twitch: self.twitch.deep_view(),
            twitter: self.twitter.deep_view(),
            wechat: self.wechat.deep_view(),
            youtube: self.youtube.deep_view(),
        }
    }
}

impl View for SocialNetworks {
    type V = SocialNetworksView;

    open spec fn view(&self) -> SocialNetworksView {
        self.deep_view()
    }
}

impl Default for Images {
    /// No image is set.
    fn default() -> (images: Images)
        ensures
            images@ == (ImagesView {
                favicon: None,
                footer_logo: None,
                header_logo: None,
                open_graph: None,
            }),
    {
        Images { favicon: None, footer_logo: None, header_logo: None, open_graph: None }
    }
}

impl Default for SocialNetworks {
    /// No network is set.
    fn default() -> (networks: SocialNetworks)
        ensures
            networks@ == (SocialNetworksView {
                facebook: None,
                flickr: None,
                github: None,
                instagram: None,
                linkedin: None,
                slack: None,
                twitch: None,
                twitter: None,
                wechat: None,
                youtube: None,
            }),
    {
        SocialNetworks {
            facebook: None,
            flickr: None,
            github: None,
            instagram: None,
            linkedin: None,
            slack: None,
            twitch: None,
            twitter: None,
            wechat: None,
            youtube: None,
        }
    }
}

impl Default for Colors {
    /// Six empty slots. They do not make valid colours: a document that
    /// gives colours gives all six.
    fn default() -> (colors: Colors)
        ensures
            colors@ == (ColorsView {
                color1: Seq::empty(),
                color2: Seq::empty(),
                color3: Seq::empty(),
                color4: Seq::empty(),
                color5: Seq::empty(),
                color6: Seq::empty(),
            }),
    {
        Colors {
            color1: String::new(),
            color2: String::new(),
            color3: String::new(),
            color4: String::new(),
            color5: String::new(),
            color6: String::new(),
        }
    }
}

impl Default for FeaturedItemRuleOption {
    /// An option without a value, a label or an order.
    fn default() -> (option: FeaturedItemRuleOption)
        ensures
            option@ == (FeaturedItemRuleOptionView { value: Seq::empty(), label: None, order: None }),
    {
        FeaturedItemRuleOption { value: String::new(), label: None, order: None }
    }
}

impl Default for FeaturedItemRule {
    /// A rule without a field and without options.
    fn default() -> (rule: FeaturedItemRule)
        ensures
            rule@ == (FeaturedItemRuleView { field: Seq::empty(), options: Seq::empty() }),
    {
        let rule = FeaturedItemRule { field: String::new(), options: Vec::new() };
        assert(rule.options.deep_view() =~= Seq::<FeaturedItemRuleOptionView>::empty());
        rule
    }
}

impl Default for Group {
    /// A group without a name and without categories.
    fn default() -> (group: Group)
        ensures
            group@ == (GroupView { name: Seq::empty(), categories: Seq::empty() }),
    {
        let group = Group { name: String::new(), categories: Vec::new() };
        assert(group.categories.deep_view() =~= Seq::<Seq<char>>::empty());
        group
    }
}

impl Default for LandscapeSettings {
    /// Settings in which nothing is set. They are not valid: the foundation
    /// is empty.
    fn default() -> (settings: LandscapeSettings)
        ensures
            settings@ == (LandscapeSettingsView {
                foundation: Seq::empty(),
                images: ImagesView {
                    favicon: None,
                    footer_logo: None,
                    header_logo: None,
                    open_graph: None,
                },
                categories: None,
                colors: None,
                featured_items: None,
                grid_items_size: None,
                groups: None,
                members_category: None,
                social_networks: None,
            }),
    {
        LandscapeSettings {
            foundation: String::new(),
            images: Images::default(),
            categories: None,
            colors: None,
            featured_items: None,
            grid_items_size: None,
            groups: None,
            members_category: None,
            social_networks: None,
        }
    }
}

} // verus!
