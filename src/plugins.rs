//! The content sources, their configuration, and the per-device map that
//! names them.
use vstd::prelude::*;

pub mod geolocation;
pub mod mashup;
pub mod ticktick;
pub mod weather;

use crate::storage;
use crate::text::same_text;

verus! {

/// The configuration of one content source.
#[derive(Debug)]
pub enum PluginConfig {
    Ticktick { project_id: String, auth: ticktick::Auth },
    Weather { location: String, detail: weather::Detail },
    TestScreen,
}

/// The model of a source's configuration.
pub ghost enum PluginConfigModel {
    Ticktick { project_id: Seq<char>, token: Seq<char> },
    Weather { location: Seq<char>, detail: weather::Detail },
    TestScreen,
}

impl View for PluginConfig {
    type V = PluginConfigModel;

    open spec fn view(&self) -> PluginConfigModel {
        match self {
            PluginConfig::Ticktick { project_id, auth } => PluginConfigModel::Ticktick {
                project_id: project_id@,
                token: auth.token@,
            },
            PluginConfig::Weather { location, detail } => PluginConfigModel::Weather {
                location: location@,
                detail: *detail,
            },
            PluginConfig::TestScreen => PluginConfigModel::TestScreen,
        }
    }
}

/// The key under which a device names each kind of source.
pub open spec fn key_of(c: PluginConfigModel) -> Seq<char> {
    match c {
        PluginConfigModel::Ticktick { .. } => "ticktick"@,
        PluginConfigModel::TestScreen => "test"@,
        PluginConfigModel::Weather { .. } => "weather"@,
    }
}

impl PluginConfig {
    /// The key under which a device names this source.
    pub fn to_key(&self) -> (r: String)
        ensures
            r@ == key_of(self@),
    {
        match self {
            PluginConfig::Ticktick { .. } => String::from_str("ticktick"),
            PluginConfig::TestScreen => String::from_str("test"),
            PluginConfig::Weather { .. } => String::from_str("weather"),
        }
    }
}

/// A configured content source, ready to produce documents.
#[derive(Debug)]
pub enum Plugin {
    Ticktick { client: ticktick::Client, project: ticktick::Project },
    Weather { client: weather::Client },
    TestScreen,
}

/// The model of a configured source.
pub ghost enum PluginModel {
    Ticktick { authorization: Seq<char>, endpoint: Seq<char>, project: Seq<char> },
    Weather { url: Seq<char>, detail: weather::Detail },
    TestScreen,
}

impl View for Plugin {
    type V = PluginModel;

    open spec fn view(&self) -> PluginModel {
        match self {
            Plugin::Ticktick { client, project } => PluginModel::Ticktick {
                authorization: client.authorization@,
                endpoint: client.endpoint.base@,
                project: project.id@,
            },
            Plugin::Weather { client } => PluginModel::Weather {
                url: client.url@,
                detail: client.detail,
            },
            Plugin::TestScreen => PluginModel::TestScreen,
        }
    }
}

/// Where geocoding located a weather source: the forecast URL for the
/// place, or why it could not be found.
pub type Located = Result<String, geolocation::Error>;

/// The model of a geocoding outcome.
pub open spec fn located_model(l: Option<Located>) -> Option<Result<Seq<char>, geolocation::Error>> {
    match l {
        Some(Ok(u)) => Some(Ok(u@)),
        Some(Err(e)) => Some(Err(e)),
        None => None,
    }
}

/// Whether every character of a text may stand in an HTTP header value.
pub open spec fn header_text(s: Seq<char>) -> bool {
    forall|i: int| 0 <= i < s.len() ==> ticktick::header_char(#[trigger] s[i])
}

/// The source that a configuration describes, given where geocoding located
/// it: a token that is no valid header value, or a weather place that was
/// not located, makes the configuration invalid.
pub open spec fn plugin_new_spec(
    c: PluginConfigModel,
    located: Option<Result<Seq<char>, geolocation::Error>>,
) -> Result<PluginModel, storage::Error> {
    match c {
        PluginConfigModel::Ticktick { project_id, token } => if header_text("Bearer "@ + token) {
            Ok(
                PluginModel::Ticktick {
                    authorization: "Bearer "@ + token,
                    endpoint: "https://api.ticktick.com/open/v1/"@,
                    project: project_id,
                },
            )
        } else {
            Err(storage::Error::InvalidConfig)
        },
        PluginConfigModel::Weather { detail, .. } => match located {
            Some(Ok(url)) => Ok(PluginModel::Weather { url, detail }),
            _ => Err(storage::Error::InvalidConfig),
        },
        PluginConfigModel::TestScreen => Ok(PluginModel::TestScreen),
    }
}

/// The model of an outcome that holds a source.
pub open spec fn plugin_outcome(r: Result<Plugin, storage::Error>) -> Result<PluginModel, storage::Error> {
    match r {
        Ok(p) => Ok(p@),
        Err(e) => Err(e),
    }
}

impl Plugin {
    /// Builds the source that `value` configures; a weather source takes the
    /// outcome of geocoding its place.
    pub fn new(value: PluginConfig, located: Option<Located>) -> (r: Result<Plugin, storage::Error>)
        ensures
            plugin_outcome(r) == plugin_new_spec(value@, located_model(located)),
    {
        match value {
            PluginConfig::Ticktick { project_id, auth } => match ticktick::Client::new(auth) {
                Ok(client) => Ok(
                    Plugin::Ticktick { client, project: ticktick::Project::from_id(project_id) },
                ),
                Err(_) => Err(storage::Error::InvalidConfig),
            },
            PluginConfig::TestScreen => Ok(Plugin::TestScreen),
            PluginConfig::Weather { location, detail } => match located {
                Some(Ok(url)) => Ok(Plugin::Weather { client: weather::Client::new(url, detail) }),
                _ => Err(storage::Error::InvalidConfig),
            },
        }
    }
}

/// The source registered last under a key, if any.
pub open spec fn find(entries: Seq<(Seq<char>, PluginModel)>, key: Seq<char>) -> Option<PluginModel>
    decreases entries.len(),
{
    if entries.len() == 0 {
        None
    } else if entries.last().0 == key {
        Some(entries.last().1)
    } else {
        find(entries.drop_last(), key)
    }
}

/// A source registered under a key.
#[derive(Debug)]
pub struct PluginEntry {
    pub key: String,
    pub plugin: Plugin,
}

/// The sources of one device, by key; a later registration under a key
/// replaces an earlier one.
#[derive(Debug)]
pub struct PluginsMap {
    entries: Vec<PluginEntry>,
}

impl View for PluginsMap {
    type V = Seq<(Seq<char>, PluginModel)>;

    closed spec fn view(&self) -> Seq<(Seq<char>, PluginModel)> {
        self.entries@.map_values(|e: PluginEntry| (e.key@, e.plugin@))
    }
}

impl PluginsMap {
    pub fn new() -> (r: PluginsMap)
        ensures
            r@ == Seq::<(Seq<char>, PluginModel)>::empty(),
    {
        let r = PluginsMap { entries: Vec::new() };
        assert(r@ =~= Seq::<(Seq<char>, PluginModel)>::empty());
        r
    }

    /// Registers `plugin` under `key`.
    pub fn insert(&mut self, key: String, plugin: Plugin)
        ensures
            final(self)@ == old(self)@.push((key@, plugin@)),
    {
        self.entries.push(PluginEntry { key, plugin });
        assert(self@ =~= old(self)@.push((key@, plugin@)));
    }

    /// The source registered last under `key`.
    pub fn get(&self, key: &str) -> (r: Option<&Plugin>)
        ensures
            match r {
                Some(p) => find(self@, key@) == Some(p@),
                None => find(self@, key@) is None,
            },
    {
        let mut i = self.entries.len();
        assert(self@.take(i as int) =~= self@);
        while i > 0
            invariant
                i <= self.entries@.len(),
                find(self@, key@) == find(self@.take(i as int), key@),
            decreases i,
        {
            let entry = &self.entries[i - 1];
            assert(self@.take(i as int).drop_last() =~= self@.take(i - 1));
            assert(self@[i - 1] == (entry.key@, entry.plugin@));
            if same_text(entry.key.as_str(), key) {
                return Some(&entry.plugin);
            }
            i = i - 1;
        }
        None
    }
}

} // verus!
