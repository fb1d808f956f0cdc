//! The registry of switchable features: what can be toggled, and the listing
//! of a chat's switches.
use vstd::prelude::*;
use crate::toggle::{ToggleChange, ToggleStore};

verus! {

/// A switchable feature: its name and a line for users.
#[derive(Debug)]
pub struct FeatureDescriptor {
    pub name: String,
    pub description: String,
}

impl FeatureDescriptor {
    pub fn new(name: String, description: String) -> (r: FeatureDescriptor)
        ensures
            r.name == name,
            r.description == description,
    {
        FeatureDescriptor { name, description }
    }
}

/// One line of a chat's feature listing.
#[derive(Debug)]
pub struct FeatureListing {
    pub name: String,
    pub description: String,
    pub enabled: bool,
}

/// The features registered at start, in registration order: (name, description).
pub open spec fn registered_features() -> Seq<(Seq<char>, Seq<char>)> {
    seq![
        ("fix"@, "补括号"@),
        ("six"@, "6"@),
        ("repeat"@, "复读机"@),
        ("fuck_b23"@, "去除b站短链跟踪参数"@),
        ("guozao"@, "play的一环"@),
        ("hitokoto"@, "名人名言"@),
        ("coin"@, "获取实时虚拟货币价格"@),
        ("id"@, "获取自己的id"@),
        ("today"@, "历史上的今天"@),
        ("wiki"@, "维基一下"@),
        ("short"@, "生成短链接"@),
        ("rate"@, "查询实时汇率"@),
        ("wcloud"@, "生成词云"@),
        ("user_freq"@, "用户发言统计"@),
        ("curl"@, "curl"@),
        ("music"@, "音乐"@),
        ("chat"@, "Ai聊天"@),
        ("translate"@, "翻译"@),
        ("ping"@, "Ping"@),
        ("vv"@, "vv不削能玩？"@),
        ("count"@, "用户发言统计"@),
    ]
}

pub open spec fn descriptor_view(d: FeatureDescriptor) -> (Seq<char>, Seq<char>) {
    (d.name@, d.description@)
}

/// The features that can be switched, in registration order.
pub fn default_features() -> (r: Vec<FeatureDescriptor>)
    ensures
        r@.map_values(|d: FeatureDescriptor| descriptor_view(d)) == registered_features(),
{
    let mut features: Vec<FeatureDescriptor> = Vec::new();
    features.push(FeatureDescriptor::new(String::from_str("fix"), String::from_str("补括号")));
    features.push(FeatureDescriptor::new(String::from_str("six"), String::from_str("6")));
    features.push(FeatureDescriptor::new(String::from_str("repeat"), String::from_str("复读机")));
    features.push(FeatureDescriptor::new(String::from_str("fuck_b23"), String::from_str("去除b站短链跟踪参数")));
    features.push(FeatureDescriptor::new(String::from_str("guozao"), String::from_str("play的一环")));
    features.push(FeatureDescriptor::new(String::from_str("hitokoto"), String::from_str("名人名言")));
    features.push(FeatureDescriptor::new(String::from_str("coin"), String::from_str("获取实时虚拟货币价格")));
    features.push(FeatureDescriptor::new(String::from_str("id"), String::from_str("获取自己的id")));
    features.push(FeatureDescriptor::new(String::from_str("today"), String::from_str("历史上的今天")));
    features.push(FeatureDescriptor::new(String::from_str("wiki"), String::from_str("维基一下")));
    features.push(FeatureDescriptor::new(String::from_str("short"), String::from_str("生成短链接")));
    features.push(FeatureDescriptor::new(String::from_str("rate"), String::from_str("查询实时汇率")));
    features.push(FeatureDescriptor::new(String::from_str("wcloud"), String::from_str("生成词云")));
    features.push(FeatureDescriptor::new(String::from_str("user_freq"), String::from_str("用户发言统计")));
    features.push(FeatureDescriptor::new(String::from_str("curl"), String::from_str("curl")));
    features.push(FeatureDescriptor::new(String::from_str("music"), String::from_str("音乐")));
    features.push(FeatureDescriptor::new(String::from_str("chat"), String::from_str("Ai聊天")));
    features.push(FeatureDescriptor::new(String::from_str("translate"), String::from_str("翻译")));
    features.push(FeatureDescriptor::new(String::from_str("ping"), String::from_str("Ping")));
    features.push(FeatureDescriptor::new(String::from_str("vv"), String::from_str("vv不削能玩？")));
    features.push(FeatureDescriptor::new(String::from_str("count"), String::from_str("用户发言统计")));
    proof {
        assert(features@.map_values(|d: FeatureDescriptor| descriptor_view(d)) =~= registered_features());
    }
    features
}

/// Whether `name` is one of `features`: a switch request for another name is invalid.
pub fn is_registered(features: &Vec<FeatureDescriptor>, name: &str) -> (r: bool)
    ensures
        r == registered(features@, name@),
{
    let wanted = String::from_str(name);
    let mut i: usize = 0;
    while i < features.len()
        invariant
            i <= features@.len(),
            wanted@ == name@,
            forall|j: int| 0 <= j < i ==> #[trigger] features@[j].name@ != name@,
        decreases features@.len() - i,
    {
        if features[i].name == wanted {
            return true;
        }
        i += 1;
    }
    false
}

/// Why a switch request was not fully carried out.
#[derive(Debug, Clone, Copy, PartialEq, Eq, Structural)]
pub enum SwitchError {
    /// No feature of that name is registered; nothing changed.
    UnknownFeature,
    /// The switch is set in memory, but the change queue was full.
    StoreBackpressure,
}

pub open spec fn registered(features: Seq<FeatureDescriptor>, name: Seq<char>) -> bool {
    exists|i: int| 0 <= i < features.len() && #[trigger] features[i].name@ == name
}

/// A switch request from a chat: rejected for a feature that is not
/// registered, else the switch is set and its change queued.
pub fn set_feature(
    store: &mut ToggleStore,
    features: &Vec<FeatureDescriptor>,
    chat_id: i64,
    feature: String,
    enabled: bool,
) -> (r: Result<(), SwitchError>)
    requires
        old(store).wf(),
    ensures
        final(store).wf(),
        !registered(features@, feature@) ==> r == Err::<(), SwitchError>(SwitchError::UnknownFeature)
            && *final(store) == *old(store),
        registered(features@, feature@) ==> {
            &&& final(store).switches() == old(store).switches().insert((chat_id, feature@), enabled)
            &&& final(store).default_spec() == old(store).default_spec()
            &&& final(store).capacity_spec() == old(store).capacity_spec()
            &&& (r is Ok <==> old(store).pending_spec().len() < old(store).capacity_spec())
            &&& (r is Err ==> r == Err::<(), SwitchError>(SwitchError::StoreBackpressure))
            &&& final(store).pending_spec() == if r is Ok {
                old(store).pending_spec().push((ToggleChange { chat_id, feature, enabled }))
            } else {
                old(store).pending_spec()
            }
        },
{
    if !is_registered(features, feature.as_str()) {
        return Err(SwitchError::UnknownFeature);
    }
    match store.set(chat_id, feature, enabled) {
        Ok(()) => Ok(()),
        Err(_) => Err(SwitchError::StoreBackpressure),
    }
}

/// The listing of `features` for `chat_id`: each with its description and
/// whether it is enabled there, in registration order.
pub fn list_features(store: &ToggleStore, chat_id: i64, features: &Vec<FeatureDescriptor>) -> (r: Vec<
    FeatureListing,
>)
    requires
        store.wf(),
    ensures
        r@.len() == features@.len(),
        forall|i: int|
            0 <= i < features@.len() ==> {
                &&& #[trigger] r@[i].name == features@[i].name
                &&& r@[i].description == features@[i].description
                &&& r@[i].enabled == store.enabled_spec(chat_id, features@[i].name@)
            },
{
    let mut out: Vec<FeatureListing> = Vec::new();
    let mut i: usize = 0;
    while i < features.len()
        invariant
            i <= features@.len(),
            store.wf(),
            out@.len() == i,
            forall|j: int|
                0 <= j < i ==> {
                    &&& #[trigger] out@[j].name == features@[j].name
                    &&& out@[j].description == features@[j].description
                    &&& out@[j].enabled == store.enabled_spec(chat_id, features@[j].name@)
                },
        decreases features@.len() - i,
    {
        let f = &features[i];
        let enabled = store.get(chat_id, f.name.as_str());
        out.push(FeatureListing { name: f.name.clone(), description: f.description.clone(), enabled });
        i += 1;
    }
    out
}

} // verus!
