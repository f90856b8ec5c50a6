//! The description of one artifact: its identity, its prerequisites, and
//! for each platform where its sources come from and how it is built.

use vstd::prelude::*;
use vstd::string::*;
use crate::error::{BuildError, BuildErrorView};
use crate::plain::Plain;
use crate::plan::{ArtifactRef, Method, MethodView, Source, SourceView};
use crate::platform::Platform;
use crate::template::{Param, ParamView};

verus! {

/// The template of the alias that most recipes register: name and version.
pub const VERSIONED_ALIAS: &'static str = "{name}:{version}";

/// The template of a source that is called as the recipe is.
pub const OWN_NAME: &'static str = "{name}";

/// The key under which a variant's texts find how the release names the
/// platform.
pub const SYSTEM_KEY: &'static str = "system";

/// What a recipe builds on one platform. All of its texts are templates.
#[derive(Debug, PartialEq, Eq)]
pub struct Variant {
    /// Values that only this platform's texts refer to.
    pub params: Vec<Param>,
    /// The sources to fetch.
    pub sources: Vec<Source>,
    /// The body of the build step.
    pub script: String,
}

/// The mathematical value of a [`Variant`].
pub struct VariantView {
    pub params: Seq<ParamView>,
    pub sources: Seq<SourceView>,
    pub script: Seq<char>,
}

impl DeepView for Variant {
    type V = VariantView;

    open spec fn deep_view(&self) -> VariantView {
        VariantView {
            params: self.params.deep_view(),
            sources: self.sources.deep_view(),
            script: self.script@,
        }
    }
}

impl View for Variant {
    type V = VariantView;

    open spec fn view(&self) -> VariantView {
        self.deep_view()
    }
}

impl VariantView {
    /// The variant that runs `script` on no sources.
    pub open spec fn new(script: Seq<char>) -> VariantView {
        VariantView { params: Seq::empty(), sources: Seq::empty(), script }
    }

    /// The variant with `source` added to the sources to fetch.
    pub open spec fn with_source(self, source: SourceView) -> VariantView {
        VariantView { sources: self.sources.push(source), ..self }
    }

    /// The variant with `key` bound to `value` in its texts.
    pub open spec fn with_param(self, key: Seq<char>, value: Seq<char>) -> VariantView {
        VariantView { params: self.params.push(ParamView { key, value }), ..self }
    }
}

impl Variant {
    /// The variant that runs `script` on no sources.
    pub fn new(script: &str) -> (variant: Variant)
        ensures
            variant@ == VariantView::new(script@),
    {
        let variant = Variant {
            params: Vec::new(),
            sources: Vec::new(),
            script: String::from_str(script),
        };
        assert(variant.params.deep_view() =~= Seq::empty());
        assert(variant.sources.deep_view() =~= Seq::empty());
        variant
    }

    /// The variant with `source` added to the sources to fetch.
    pub fn with_source(self, source: Source) -> (variant: Variant)
        ensures
            variant@ == self@.with_source(source@),
    {
        let mut variant = self;
        variant.sources.push(source);
        assert(variant.sources.deep_view() =~= self.sources.deep_view().push(source@));
        variant
    }

    /// The variant with `key` bound to `value` in its texts.
    pub fn with_param(self, key: &str, value: &str) -> (variant: Variant)
        ensures
            variant@ == self@.with_param(key@, value@),
    {
        let mut variant = self;
        let param = Param::new(key, value);
        variant.params.push(param);
        assert(variant.params.deep_view() =~= self.params.deep_view().push(param@));
        variant
    }
}

impl Plain for Variant {
    fn same(&self, other: &Self) -> (equal: bool) {
        self.params.same(&other.params) && self.sources.same(&other.sources) && self.script
            == other.script
    }

    fn duplicate(&self) -> (copy: Self) {
        Variant {
            params: self.params.duplicate(),
            sources: self.sources.duplicate(),
            script: self.script.clone(),
        }
    }
}

/// The variants of a recipe, one place for each platform.
#[derive(Debug, PartialEq, Eq)]
pub struct Variants {
    pub aarch64_darwin: Option<Variant>,
    pub aarch64_linux: Option<Variant>,
    pub x8664_darwin: Option<Variant>,
    pub x8664_linux: Option<Variant>,
}

/// The mathematical value of [`Variants`].
pub struct VariantsView {
    pub aarch64_darwin: Option<VariantView>,
    pub aarch64_linux: Option<VariantView>,
    pub x8664_darwin: Option<VariantView>,
    pub x8664_linux: Option<VariantView>,
}

impl DeepView for Variants {
    type V = VariantsView;

    open spec fn deep_view(&self) -> VariantsView {
        VariantsView {
            aarch64_darwin: self.aarch64_darwin.deep_view(),
            aarch64_linux: self.aarch64_linux.deep_view(),
            x8664_darwin: self.x8664_darwin.deep_view(),
            x8664_linux: self.x8664_linux.deep_view(),
        }
    }
}

impl View for Variants {
    type V = VariantsView;

    open spec fn view(&self) -> VariantsView {
        self.deep_view()
    }
}

impl VariantsView {
    /// No variant for any platform.
    pub open spec fn none() -> VariantsView {
        VariantsView {
            aarch64_darwin: None,
            aarch64_linux: None,
            x8664_darwin: None,
            x8664_linux: None,
        }
    }

    /// The variant authored for `platform`, if there is one.
    pub open spec fn get(self, platform: Platform) -> Option<VariantView> {
        match platform {
            Platform::Aarch64Darwin => self.aarch64_darwin,
            Platform::Aarch64Linux => self.aarch64_linux,
            Platform::X8664Darwin => self.x8664_darwin,
            Platform::X8664Linux => self.x8664_linux,
        }
    }

    /// The variants with `variant` authored for `platform`.
    pub open spec fn set(self, platform: Platform, variant: VariantView) -> VariantsView {
        match platform {
            Platform::Aarch64Darwin => VariantsView { aarch64_darwin: Some(variant), ..self },
            Platform::Aarch64Linux => VariantsView { aarch64_linux: Some(variant), ..self },
            Platform::X8664Darwin => VariantsView { x8664_darwin: Some(variant), ..self },
            Platform::X8664Linux => VariantsView { x8664_linux: Some(variant), ..self },
        }
    }

}

impl Variants {
    /// No variant for any platform.
    pub fn none() -> (variants: Variants)
        ensures
            variants@ == VariantsView::none(),
    {
        Variants { aarch64_darwin: None, aarch64_linux: None, x8664_darwin: None, x8664_linux: None }
    }

    /// The variant authored for `platform`, if there is one. The places of
    /// the other platforms are not looked at.
    pub fn get(&self, platform: Platform) -> (variant: Option<&Variant>)
        ensures
            variant.deep_view() == self@.get(platform),
    {
        match platform {
            Platform::Aarch64Darwin => self.aarch64_darwin.as_ref(),
            Platform::Aarch64Linux => self.aarch64_linux.as_ref(),
            Platform::X8664Darwin => self.x8664_darwin.as_ref(),
            Platform::X8664Linux => self.x8664_linux.as_ref(),
        }
    }

    /// Authors `variant` for `platform`, in place of what was there.
    pub fn set(&mut self, platform: Platform, variant: Variant)
        ensures
            final(self)@ == old(self)@.set(platform, variant@),
    {
        match platform {
            Platform::Aarch64Darwin => {
                self.aarch64_darwin = Some(variant);
            },
            Platform::Aarch64Linux => {
                self.aarch64_linux = Some(variant);
            },
            Platform::X8664Darwin => {
                self.x8664_darwin = Some(variant);
            },
            Platform::X8664Linux => {
                self.x8664_linux = Some(variant);
            },
        }
    }

}

/// Hands the artifact bound to an earlier prerequisite of the owning recipe
/// on to a prerequisite of the fallback recipe.
#[derive(Clone, Copy, Debug, PartialEq, Eq, Structural)]
pub struct Share {
    /// The position of the earlier prerequisite in the owning recipe.
    pub sibling: usize,
    /// The position of the prerequisite in the fallback recipe.
    pub slot: usize,
}

impl DeepView for Share {
    type V = Share;

    open spec fn deep_view(&self) -> Share {
        *self
    }
}

/// A prerequisite of a recipe: the artifact the caller supplied for it, or
/// else the recipe to build one from.
#[derive(Debug, PartialEq, Eq)]
pub struct Slot {
    /// The name of the placeholder the artifact is filled in for.
    pub name: String,
    /// The artifact the caller supplied, if any.
    pub supplied: Option<ArtifactRef>,
    /// The recipe that is built where the caller supplied nothing.
    pub fallback: RecipeSpec,
    /// The artifacts of earlier prerequisites that the fallback recipe is
    /// built with.
    pub shares: Vec<Share>,
}

/// The description of one artifact.
#[derive(Debug, PartialEq, Eq)]
pub struct RecipeSpec {
    /// The name of the artifact.
    pub name: String,
    /// Its version tag.
    pub version: String,
    /// Values that the recipe's texts refer to.
    pub params: Vec<Param>,
    /// The prerequisites, in the order in which they are resolved.
    pub slots: Vec<Slot>,
    /// The positions of the prerequisites in the order in which the build
    /// declares them as its inputs.
    pub inputs: Vec<usize>,
    /// The platforms that a variant was authored for, one entry for each
    /// authoring and in that order: the platforms the artifact is valid for.
    pub systems: Vec<Platform>,
    /// What to build on each platform.
    pub variants: Variants,
    /// Templates of the environment settings of the build step.
    pub environments: Vec<String>,
    /// Templates of the further names to register the artifact under.
    pub aliases: Vec<String>,
    /// How the executor builds the artifact; its texts are templates.
    pub method: Method,
}

/// The mathematical value of a [`Slot`].
pub struct SlotView {
    pub name: Seq<char>,
    pub supplied: Option<Seq<char>>,
    pub fallback: RecipeView,
    pub shares: Seq<Share>,
}

/// The mathematical value of a [`RecipeSpec`].
pub struct RecipeView {
    pub name: Seq<char>,
    pub version: Seq<char>,
    pub params: Seq<ParamView>,
    pub slots: Seq<SlotView>,
    pub inputs: Seq<usize>,
    pub systems: Seq<Platform>,
    pub variants: VariantsView,
    pub environments: Seq<Seq<char>>,
    pub aliases: Seq<Seq<char>>,
    pub method: MethodView,
}

impl Slot {
    /// The mathematical value of the prerequisite.
    pub open spec fn model(self) -> SlotView
        decreases self,
    {
        SlotView {
            name: self.name@,
            supplied: self.supplied.deep_view(),
            fallback: self.fallback.model(),
            shares: self.shares.deep_view(),
        }
    }
}

impl RecipeSpec {
    /// The mathematical value of the recipe.
    pub open spec fn model(self) -> RecipeView
        decreases self,
    {
        RecipeView {
            name: self.name@,
            version: self.version@,
            params: self.params.deep_view(),
            slots: Seq::new(
                self.slots@.len(),
                |i: int|
                    if 0 <= i < self.slots@.len() {
                        self.slots@[i].model()
                    } else {
                        arbitrary()
                    },
            ),
            inputs: self.inputs.deep_view(),
            systems: self.systems.deep_view(),
            variants: self.variants@,
            environments: self.environments.deep_view(),
            aliases: self.aliases.deep_view(),
            method: self.method@,
        }
    }
}

impl DeepView for Slot {
    type V = SlotView;

    open spec fn deep_view(&self) -> SlotView {
        self.model()
    }
}

impl View for Slot {
    type V = SlotView;

    open spec fn view(&self) -> SlotView {
        self.model()
    }
}

impl DeepView for RecipeSpec {
    type V = RecipeView;

    open spec fn deep_view(&self) -> RecipeView {
        self.model()
    }
}

impl View for RecipeSpec {
    type V = RecipeView;

    open spec fn view(&self) -> RecipeView {
        self.model()
    }
}

impl SlotView {
    /// The prerequisite called `name`, bound to `supplied` where that is
    /// given and else built from `fallback`.
    pub open spec fn new(
        name: Seq<char>,
        supplied: Option<Seq<char>>,
        fallback: RecipeView,
    ) -> SlotView {
        SlotView { name, supplied, fallback, shares: Seq::empty() }
    }

    /// The prerequisite whose fallback recipe is built with the artifact of
    /// the owning recipe's prerequisite at `sibling` in its own place `slot`.
    pub open spec fn sharing(self, sibling: usize, slot: usize) -> SlotView {
        SlotView { shares: self.shares.push(Share { sibling, slot }), ..self }
    }
}

impl Slot {
    /// The prerequisite called `name`, bound to `supplied` where that is
    /// given and else built from `fallback`.
    pub fn new(name: &str, supplied: Option<ArtifactRef>, fallback: RecipeSpec) -> (slot: Slot)
        ensures
            slot@ == SlotView::new(name@, supplied.deep_view(), fallback@),
    {
        let slot = Slot { name: String::from_str(name), supplied, fallback, shares: Vec::new() };
        assert(slot.shares.deep_view() =~= Seq::empty());
        slot
    }

    /// The prerequisite whose fallback recipe is built with the artifact of
    /// the owning recipe's prerequisite at `sibling` in its own place `slot`.
    pub fn sharing(self, sibling: usize, slot: usize) -> (shared: Slot)
        ensures
            shared@ == self@.sharing(sibling, slot),
    {
        let mut shared = self;
        shared.shares.push(Share { sibling, slot });
        assert(shared.shares.deep_view() =~= self.shares.deep_view().push(Share { sibling, slot }));
        shared
    }
}

impl RecipeView {
    /// The recipe of that name and version, with nothing else said of it.
    pub open spec fn new(name: Seq<char>, version: Seq<char>) -> RecipeView {
        RecipeView {
            name,
            version,
            params: Seq::empty(),
            slots: Seq::empty(),
            inputs: Seq::empty(),
            systems: Seq::empty(),
            variants: VariantsView::none(),
            environments: Seq::empty(),
            aliases: Seq::empty(),
            method: MethodView::Shell,
        }
    }

    /// The recipe with `key` bound to `value` in its texts.
    pub open spec fn with_param(self, key: Seq<char>, value: Seq<char>) -> RecipeView {
        RecipeView { params: self.params.push(ParamView { key, value }), ..self }
    }

    /// The recipe with `slot` as its last prerequisite, declared as the
    /// build's last input.
    pub open spec fn with_slot(self, slot: SlotView) -> RecipeView {
        RecipeView {
            slots: self.slots.push(slot),
            inputs: self.inputs.push(self.slots.len() as usize),
            ..self
        }
    }

    /// The recipe whose build declares its inputs in the given order.
    pub open spec fn with_inputs(self, inputs: Seq<usize>) -> RecipeView {
        RecipeView { inputs, ..self }
    }

    /// The recipe with one more environment setting.
    pub open spec fn with_environment(self, setting: Seq<char>) -> RecipeView {
        RecipeView { environments: self.environments.push(setting), ..self }
    }

    /// The recipe with one more alias.
    pub open spec fn with_alias(self, alias: Seq<char>) -> RecipeView {
        RecipeView { aliases: self.aliases.push(alias), ..self }
    }

    /// The recipe built by `method`.
    pub open spec fn with_method(self, method: MethodView) -> RecipeView {
        RecipeView { method, ..self }
    }

    /// The recipe with `variant` authored for `platform`, in place of what
    /// was authored for it before, and with `platform` as the last in the list
    /// of the platforms authored for.
    pub open spec fn on(self, platform: Platform, variant: VariantView) -> RecipeView {
        RecipeView {
            systems: self.systems.push(platform),
            variants: self.variants.set(platform, variant),
            ..self
        }
    }

    /// The recipe with `variant` authored for each of `systems`, in their
    /// order.
    pub open spec fn on_each(self, systems: Seq<Platform>, variant: VariantView) -> RecipeView
        decreases systems.len(),
    {
        if systems.len() == 0 {
            self
        } else {
            self.on_each(systems.drop_last(), variant).on(systems.last(), variant)
        }
    }

    /// The recipe with `variant` authored for every platform.
    pub open spec fn on_all(self, variant: VariantView) -> RecipeView {
        self.on(Platform::Aarch64Darwin, variant).on(Platform::Aarch64Linux, variant).on(
            Platform::X8664Darwin,
            variant,
        ).on(Platform::X8664Linux, variant)
    }

    /// The recipe with `variant` authored for both Darwin platforms.
    pub open spec fn on_darwin(self, variant: VariantView) -> RecipeView {
        self.on(Platform::Aarch64Darwin, variant).on(Platform::X8664Darwin, variant)
    }

    /// Platform selection: the variant authored for `platform`, or the error
    /// that names the recipe and the platform.
    pub open spec fn select(self, platform: Platform) -> Result<VariantView, BuildErrorView> {
        match self.variants.get(platform) {
            Some(variant) => Ok(variant),
            None => Err(BuildErrorView::UnsupportedPlatform { recipe: self.name, platform }),
        }
    }

    /// The platforms listed are exactly those that have a variant.
    pub open spec fn lists_its_variants(self) -> bool {
        forall|platform: Platform|
            self.systems.contains(platform) <==> self.variants.get(platform) is Some
    }

    /// The prerequisites' names differ from each other, each share hands an
    /// earlier prerequisite on to a place that the fallback recipe has, each
    /// declared input is a prerequisite, the platforms listed are those that
    /// have a variant, and the fallback recipes are well formed in turn.
    pub open spec fn wf(self) -> bool
        decreases self,
    {
        &&& self.lists_its_variants()
        &&& forall|i: int, j: int|
            0 <= i < j < self.slots.len() ==> self.slots[i].name != self.slots[j].name
        &&& forall|k: int| 0 <= k < self.inputs.len() ==> self.inputs[k] < self.slots.len()
        &&& forall|i: int, k: int|
            0 <= i < self.slots.len() && 0 <= k < self.slots[i].shares.len() ==> {
                &&& (#[trigger] self.slots[i].shares[k]).sibling < i
                &&& self.slots[i].shares[k].slot < self.slots[i].fallback.slots.len()
            }
        &&& forall|i: int| 0 <= i < self.slots.len() ==> (#[trigger] self.slots[i]).fallback.wf()
    }
}

/// A recipe with nothing authored lists no platform, and authoring a variant
/// keeps the list in step with the variants.
pub proof fn lemma_authoring_lists_variants(
    recipe: RecipeView,
    platform: Platform,
    variant: VariantView,
)
    ensures
        RecipeView::new(recipe.name, recipe.version).lists_its_variants(),
        recipe.lists_its_variants() ==> recipe.on(platform, variant).lists_its_variants(),
{
    let bare = RecipeView::new(recipe.name, recipe.version);
    assert forall|p: Platform| !bare.systems.contains(p) by {}
    assert forall|p: Platform| bare.variants.get(p) is None by {}
    if recipe.lists_its_variants() {
        let next = recipe.on(platform, variant);
        assert forall|p: Platform| next.systems.contains(p) <==> next.variants.get(p) is Some by {
            if next.systems.contains(p) {
                let i = choose|i: int| 0 <= i < next.systems.len() && next.systems[i] == p;
                if i < recipe.systems.len() {
                    assert(recipe.systems[i] == p);
                    assert(recipe.systems.contains(p));
                    assert(recipe.variants.get(p) is Some);
                } else {
                    assert(p == platform);
                }
                assert(next.variants.get(p) is Some);
            }
            if next.variants.get(p) is Some {
                if p == platform {
                    assert(next.systems[recipe.systems.len() as int] == p);
                } else {
                    assert(recipe.variants.get(p) is Some);
                    assert(recipe.systems.contains(p));
                    let i = choose|i: int| 0 <= i < recipe.systems.len() && recipe.systems[i] == p;
                    assert(next.systems[i] == p);
                }
            }
        }
    }
}

/// Authoring a variant for each platform of a list appends the list, as it
/// is, to the platforms listed.
pub proof fn lemma_on_each_appends(recipe: RecipeView, systems: Seq<Platform>, variant: VariantView)
    ensures
        recipe.on_each(systems, variant).systems == recipe.systems + systems,
        recipe.lists_its_variants() ==> recipe.on_each(systems, variant).lists_its_variants(),
        forall|platform: Platform|
            systems.contains(platform) ==> recipe.on_each(systems, variant).variants.get(platform)
                == Some(variant),
    decreases systems.len(),
{
    if systems.len() == 0 {
        assert(recipe.systems + systems =~= recipe.systems);
    } else {
        let before = recipe.on_each(systems.drop_last(), variant);
        lemma_on_each_appends(recipe, systems.drop_last(), variant);
        lemma_authoring_lists_variants(before, systems.last(), variant);
        assert(before.systems.push(systems.last()) =~= recipe.systems + systems);
        assert forall|platform: Platform| systems.contains(platform) implies recipe.on_each(
            systems,
            variant,
        ).variants.get(platform) == Some(variant) by {
            if platform != systems.last() {
                let i = choose|i: int| 0 <= i < systems.len() && systems[i] == platform;
                assert(systems.drop_last()[i] == platform);
                assert(systems.drop_last().contains(platform));
                assert(before.variants.get(platform) == Some(variant));
            }
        }
    }
}

/// Authoring a variant for every platform, or for both Darwin platforms,
/// keeps the list of platforms in step with the variants.
pub proof fn lemma_on_all_lists_variants(recipe: RecipeView, variant: VariantView)
    requires
        recipe.lists_its_variants(),
    ensures
        recipe.on_all(variant).lists_its_variants(),
        recipe.on_darwin(variant).lists_its_variants(),
{
    let first = recipe.on(Platform::Aarch64Darwin, variant);
    lemma_authoring_lists_variants(recipe, Platform::Aarch64Darwin, variant);
    let second = first.on(Platform::Aarch64Linux, variant);
    lemma_authoring_lists_variants(first, Platform::Aarch64Linux, variant);
    let third = second.on(Platform::X8664Darwin, variant);
    lemma_authoring_lists_variants(second, Platform::X8664Darwin, variant);
    lemma_authoring_lists_variants(third, Platform::X8664Linux, variant);
    lemma_authoring_lists_variants(first, Platform::X8664Darwin, variant);
}

/// Authoring variants for the platforms of a list leaves every other
/// platform, and everything else about the recipe, as it was.
pub proof fn lemma_on_each_keeps_the_rest(
    recipe: RecipeView,
    systems: Seq<Platform>,
    variant: VariantView,
)
    ensures
        recipe.on_each(systems, variant) == (RecipeView {
            systems: recipe.on_each(systems, variant).systems,
            variants: recipe.on_each(systems, variant).variants,
            ..recipe
        }),
        forall|platform: Platform|
            !systems.contains(platform) ==> recipe.on_each(systems, variant).variants.get(platform)
                == recipe.variants.get(platform),
    decreases systems.len(),
{
    if systems.len() > 0 {
        lemma_on_each_keeps_the_rest(recipe, systems.drop_last(), variant);
        assert forall|platform: Platform| !systems.contains(platform) implies recipe.on_each(
            systems,
            variant,
        ).variants.get(platform) == recipe.variants.get(platform) by {
            assert(systems[systems.len() - 1] == systems.last());
            if systems.drop_last().contains(platform) {
                let i = choose|i: int|
                    0 <= i < systems.drop_last().len() && systems.drop_last()[i] == platform;
                assert(systems[i] == platform);
            }
        }
    }
}

impl RecipeSpec {
    /// The recipe of that name and version, with nothing else said of it.
    pub fn new(name: &str, version: &str) -> (recipe: RecipeSpec)
        ensures
            recipe@ == RecipeView::new(name@, version@),
    {
        let recipe = RecipeSpec {
            name: String::from_str(name),
            version: String::from_str(version),
            params: Vec::new(),
            slots: Vec::new(),
            inputs: Vec::new(),
            systems: Vec::new(),
            variants: Variants::none(),
            environments: Vec::new(),
            aliases: Vec::new(),
            method: Method::Shell,
        };
        assert(recipe@.params =~= Seq::empty());
        assert(recipe@.slots =~= Seq::empty());
        assert(recipe@.inputs =~= Seq::empty());
        assert(recipe@.systems =~= Seq::empty());
        assert(recipe@.environments =~= Seq::empty());
        assert(recipe@.aliases =~= Seq::empty());
        recipe
    }

    /// The recipe with `key` bound to `value` in its texts.
    pub fn with_param(self, key: &str, value: &str) -> (recipe: RecipeSpec)
        ensures
            recipe@ == self@.with_param(key@, value@),
    {
        let mut recipe = self;
        let param = Param::new(key, value);
        recipe.params.push(param);
        assert(recipe@.params =~= self@.params.push(param@));
        assert(recipe@.slots =~= self@.slots);
        recipe
    }

    /// The recipe with `slot` as its last prerequisite, declared as the
    /// build's last input.
    pub fn with_slot(self, slot: Slot) -> (recipe: RecipeSpec)
        ensures
            recipe@ == self@.with_slot(slot@),
    {
        let mut recipe = self;
        let position = recipe.slots.len();
        recipe.slots.push(slot);
        recipe.inputs.push(position);
        assert(recipe@.slots =~= self@.slots.push(slot@));
        assert(recipe@.inputs =~= self@.inputs.push(position));
        recipe
    }

    /// The recipe whose build declares its inputs in the given order.
    pub fn with_inputs(self, inputs: Vec<usize>) -> (recipe: RecipeSpec)
        ensures
            recipe@ == self@.with_inputs(inputs@),
    {
        let mut recipe = self;
        recipe.inputs = inputs;
        assert(recipe@.inputs =~= inputs@);
        assert(recipe@.slots =~= self@.slots);
        recipe
    }

    /// The recipe with one more environment setting.
    pub fn with_environment(self, setting: &str) -> (recipe: RecipeSpec)
        ensures
            recipe@ == self@.with_environment(setting@),
    {
        let mut recipe = self;
        recipe.environments.push(String::from_str(setting));
        assert(recipe@.environments =~= self@.environments.push(setting@));
        assert(recipe@.slots =~= self@.slots);
        recipe
    }

    /// The recipe with one more alias.
    pub fn with_alias(self, alias: &str) -> (recipe: RecipeSpec)
        ensures
            recipe@ == self@.with_alias(alias@),
    {
        let mut recipe = self;
        recipe.aliases.push(String::from_str(alias));
        assert(recipe@.aliases =~= self@.aliases.push(alias@));
        assert(recipe@.slots =~= self@.slots);
        recipe
    }

    /// The recipe built by `method`.
    pub fn with_method(self, method: Method) -> (recipe: RecipeSpec)
        ensures
            recipe@ == self@.with_method(method@),
    {
        let mut recipe = self;
        recipe.method = method;
        assert(recipe@.slots =~= self@.slots);
        recipe
    }

    /// The recipe with `variant` authored for `platform`, in place of what
    /// was authored for it before, and with `platform` as the last in the list
    /// of the platforms authored for.
    pub fn on(self, platform: Platform, variant: Variant) -> (recipe: RecipeSpec)
        ensures
            recipe@ == self@.on(platform, variant@),
    {
        let mut recipe = self;
        recipe.systems.push(platform);
        recipe.variants.set(platform, variant);
        assert(recipe@.slots =~= self@.slots);
        assert(recipe@.systems =~= self@.systems.push(platform));
        recipe
    }

    /// The recipe with `variant` authored for each of `systems`, in their
    /// order.
    pub fn on_each(self, systems: &Vec<Platform>, variant: &Variant) -> (recipe: RecipeSpec)
        ensures
            recipe@ == self@.on_each(systems@, variant@),
    {
        let mut recipe = self;
        let mut i: usize = 0;
        assert(systems@.take(0) =~= Seq::<Platform>::empty());
        while i < systems.len()
            invariant
                i <= systems.len(),
                recipe@ == self@.on_each(systems@.take(i as int), variant@),
            decreases systems.len() - i,
        {
            assert(systems@.take(i + 1).drop_last() =~= systems@.take(i as int));
            recipe = recipe.on(systems[i], variant.duplicate());
            i = i + 1;
        }
        assert(systems@.take(systems.len() as int) =~= systems@);
        recipe
    }

    /// The recipe with `variant` authored for every platform.
    pub fn on_all(self, variant: Variant) -> (recipe: RecipeSpec)
        ensures
            recipe@ == self@.on_all(variant@),
    {
        let second = variant.duplicate();
        let third = variant.duplicate();
        let fourth = variant.duplicate();
        self.on(Platform::Aarch64Darwin, variant).on(Platform::Aarch64Linux, second).on(
            Platform::X8664Darwin,
            third,
        ).on(Platform::X8664Linux, fourth)
    }

    /// The recipe with `variant` authored for both Darwin platforms.
    pub fn on_darwin(self, variant: Variant) -> (recipe: RecipeSpec)
        ensures
            recipe@ == self@.on_darwin(variant@),
    {
        let second = variant.duplicate();
        self.on(Platform::Aarch64Darwin, variant).on(Platform::X8664Darwin, second)
    }

    /// Platform selection: the variant authored for `platform`, or the error
    /// that names the recipe and the platform. The variants of the other
    /// platforms are not looked at.
    pub fn select(&self, platform: Platform) -> (choice: Result<&Variant, BuildError>)
        ensures
            match self@.select(platform) {
                Ok(variant) => choice is Ok && choice->Ok_0@ == variant,
                Err(error) => choice is Err && choice->Err_0@ == error,
            },
    {
        match self.variants.get(platform) {
            Some(variant) => Ok(variant),
            None => Err(BuildError::UnsupportedPlatform { recipe: self.name.clone(), platform }),
        }
    }
}

} // verus!
