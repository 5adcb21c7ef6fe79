//! The device registry: each device's layout and the sources it draws on.
use vstd::prelude::*;

use crate::generator::SetupError;
use crate::plugins::{
    self,
    find,
    key_of,
    located_model,
    plugin_new_spec,
    Located,
    PluginConfig,
    PluginConfigModel,
    PluginModel,
    PluginsMap,
};
use crate::plugins::geolocation;
use crate::plugins::mashup::{Mashup, MashupModel};
use crate::resource::{local_under_spec, Resource, ResourceModel};
use crate::text::same_text;

verus! {

/// Why the device registry could not be loaded.
#[derive(Debug, Clone)]
pub enum Error {
    NotFound,
    InvalidConfig,
    LoadConfig(String),
}

/// The failure that loading the registry ends in.
pub type LoadError = Error;

impl Error {
    /// A sentence that says what went wrong.
    pub fn message(&self) -> (r: String)
        ensures
            match self {
                Error::NotFound => r@ == "The device file was not found"@,
                Error::InvalidConfig => r@
                    == "The device file was loaded, but contained invalid data."@,
                Error::LoadConfig(m) => r@ == m@,
            },
    {
        match self {
            Error::NotFound => String::from_str("The device file was not found"),
            Error::InvalidConfig => String::from_str(
                "The device file was loaded, but contained invalid data.",
            ),
            Error::LoadConfig(m) => m.clone(),
        }
    }
}

/// A reference, by key, to one of a device's sources.
#[derive(Debug)]
pub struct Plugin(pub String);

impl Plugin {
    /// The source that the reference names.
    pub fn resolve<'a>(&self, plugins: &'a PluginsMap) -> (r: Option<&'a plugins::Plugin>)
        ensures
            match r {
                Some(p) => find(plugins@, self.0@) == Some(p@),
                None => find(plugins@, self.0@) is None,
            },
    {
        plugins.get(self.0.as_str())
    }
}

/// A layout as configured, with sources named by key.
#[derive(Debug)]
pub enum MashupSpec {
    PassThrough(String),
    Single(Plugin),
    LeftRight { left: Plugin, right: Plugin },
}

impl View for MashupSpec {
    type V = MashupModel;

    open spec fn view(&self) -> MashupModel {
        match self {
            MashupSpec::PassThrough(u) => MashupModel::PassThrough(u@),
            MashupSpec::Single(p) => MashupModel::Single(p.0@),
            MashupSpec::LeftRight { left, right } => MashupModel::LeftRight {
                left: left.0@,
                right: right.0@,
            },
        }
    }
}

/// Whether each source that a layout names is among `plugins`.
pub open spec fn resolves(m: MashupModel, plugins: Seq<(Seq<char>, PluginModel)>) -> bool {
    match m {
        MashupModel::PassThrough(_) => true,
        MashupModel::Single(k) => find(plugins, k) is Some,
        MashupModel::LeftRight { left, right } => find(plugins, left) is Some && find(
            plugins,
            right,
        ) is Some,
    }
}

/// The model of an outcome that holds a layout.
pub open spec fn mashup_outcome(r: Result<Mashup, Error>) -> Result<MashupModel, Error> {
    match r {
        Ok(m) => Ok(m@),
        Err(e) => Err(e),
    }
}

impl MashupSpec {
    /// The layout, where each source it names is among `plugins`.
    pub fn into_resolved_mashup(self, plugins: &PluginsMap) -> (r: Result<Mashup, Error>)
        ensures
            resolves(self@, plugins@) ==> mashup_outcome(r) == Ok::<MashupModel, Error>(self@),
            !resolves(self@, plugins@) ==> r matches Err(Error::InvalidConfig),
    {
        match self {
            MashupSpec::PassThrough(u) => Ok(Mashup::PassThrough(u)),
            MashupSpec::Single(source) => match source.resolve(plugins) {
                Some(_) => Ok(Mashup::Single(source.0)),
                None => Err(Error::InvalidConfig),
            },
            MashupSpec::LeftRight { left, right } => {
                let found_left = left.resolve(plugins).is_some();
                let found_right = right.resolve(plugins).is_some();
                if found_left && found_right {
                    Ok(Mashup::LeftRight { left: left.0, right: right.0 })
                } else {
                    Err(Error::InvalidConfig)
                }
            },
        }
    }
}

/// A device as configured: its layout and its sources.
#[derive(Debug)]
pub struct DeviceConfig {
    pub mashup: MashupSpec,
    pub plugins: Vec<PluginConfig>,
}

/// The geocoding outcome of the source at `i`, `None` past the end.
pub open spec fn located_at(located: Seq<Option<Result<Seq<char>, geolocation::Error>>>, i: int) -> Option<
    Result<Seq<char>, geolocation::Error>,
> {
    if 0 <= i < located.len() {
        located[i]
    } else {
        None
    }
}

/// The models of source configurations.
pub open spec fn config_models(configs: Seq<PluginConfig>) -> Seq<PluginConfigModel> {
    configs.map_values(|c: PluginConfig| c@)
}

/// The models of geocoding outcomes.
pub open spec fn located_models(located: Seq<Option<Located>>) -> Seq<
    Option<Result<Seq<char>, geolocation::Error>>,
> {
    located.map_values(|l: Option<Located>| located_model(l))
}

/// The sources that the first `n` configurations make, in order, or the
/// first failure.
pub open spec fn build_plugins(
    configs: Seq<PluginConfigModel>,
    located: Seq<Option<Result<Seq<char>, geolocation::Error>>>,
    n: nat,
) -> Result<Seq<(Seq<char>, PluginModel)>, Error>
    decreases n,
{
    if n == 0 {
        Ok(Seq::empty())
    } else {
        match build_plugins(configs, located, (n - 1) as nat) {
            Err(e) => Err(e),
            Ok(built) => match plugin_new_spec(configs[n - 1], located_at(located, n - 1)) {
                Err(e) => Err(e),
                Ok(p) => Ok(built.push((key_of(configs[n - 1]), p))),
            },
        }
    }
}

/// The device that a configuration makes: every source built, and a layout
/// that names only those.
pub open spec fn load_spec(
    mashup: MashupModel,
    configs: Seq<PluginConfigModel>,
    located: Seq<Option<Result<Seq<char>, geolocation::Error>>>,
) -> Result<(MashupModel, Seq<(Seq<char>, PluginModel)>), Error> {
    match build_plugins(configs, located, configs.len()) {
        Err(e) => Err(e),
        Ok(plugins) => if resolves(mashup, plugins) {
            Ok((mashup, plugins))
        } else {
            Err(Error::InvalidConfig)
        },
    }
}

/// A device ready to generate documents: its layout names only its sources.
#[derive(Debug)]
pub struct DeviceSetup {
    mashup: Mashup,
    plugins: PluginsMap,
}

/// The sources that a layout draws on.
pub enum Sources<'a> {
    PassThrough(&'a str),
    Single(&'a plugins::Plugin),
    SideBySide(&'a plugins::Plugin, &'a plugins::Plugin),
}

impl View for DeviceSetup {
    type V = (MashupModel, Seq<(Seq<char>, PluginModel)>);

    closed spec fn view(&self) -> (MashupModel, Seq<(Seq<char>, PluginModel)>) {
        (self.mashup@, self.plugins@)
    }
}

/// The model of an outcome that holds a device.
pub open spec fn setup_outcome(r: Result<DeviceSetup, Error>) -> Result<
    (MashupModel, Seq<(Seq<char>, PluginModel)>),
    Error,
> {
    match r {
        Ok(d) => Ok(d@),
        Err(e) => Err(e),
    }
}

impl DeviceSetup {
    #[verifier::type_invariant]
    spec fn layout_names_own_sources(&self) -> bool {
        resolves(self.mashup@, self.plugins@)
    }

    /// The layout.
    pub fn mashup(&self) -> (r: &Mashup)
        ensures
            r@ == self@.0,
    {
        &self.mashup
    }

    /// Builds a device from its configuration; `located[i]` is the geocoding
    /// outcome of the `i`-th source where that is a weather source. A later
    /// source of a kind replaces an earlier one.
    pub fn load(config: DeviceConfig, located: Vec<Option<Located>>) -> (r: Result<DeviceSetup, Error>)
        ensures
            setup_outcome(r) == load_spec(
                config.mashup@,
                config_models(config.plugins@),
                located_models(located@),
            ),
    {
        let ghost configs = config_models(config.plugins@);
        let ghost locs = located_models(located@);
        let ghost mm = config.mashup@;
        let mashup = config.mashup;
        let mut rest = config.plugins;
        let mut pending = located;
        let mut map = PluginsMap::new();
        let ghost mut i: int = 0;
        while rest.len() > 0
            invariant
                configs == config_models(config.plugins@),
                locs == located_models(located@),
                mm == config.mashup@,
                0 <= i <= configs.len(),
                rest@.len() == configs.len() - i,
                forall|j: int| 0 <= j < rest@.len() ==> #[trigger] rest@[j]@ == configs[i + j],
                i <= locs.len() ==> pending@.len() == locs.len() - i,
                i > locs.len() ==> pending@.len() == 0,
                forall|j: int|
                    0 <= j < pending@.len() ==> located_model(#[trigger] pending@[j]) == locs[i + j],
                build_plugins(configs, locs, i as nat) == Ok::<
                    Seq<(Seq<char>, PluginModel)>,
                    Error,
                >(map@),
            decreases rest@.len(),
        {
            let c = rest.remove(0);
            assert(c@ == configs[i]);
            let l = if pending.len() > 0 {
                pending.remove(0)
            } else {
                None
            };
            assert(located_model(l) == located_at(locs, i));
            let key = c.to_key();
            match plugins::Plugin::new(c, l) {
                Ok(p) => {
                    map.insert(key, p);
                },
                Err(e) => {
                    assert(build_plugins(configs, locs, (i + 1) as nat) == Err::<
                        Seq<(Seq<char>, PluginModel)>,
                        Error,
                    >(e));
                    assert(build_plugins(configs, locs, configs.len()) == Err::<
                        Seq<(Seq<char>, PluginModel)>,
                        Error,
                    >(e)) by {
                        lemma_build_failure_persists(configs, locs, (i + 1) as nat, configs.len(), e);
                    }
                    assert(load_spec(mm, configs, locs) == Err::<
                        (MashupModel, Seq<(Seq<char>, PluginModel)>),
                        Error,
                    >(e));
                    return Err(e);
                },
            }
            proof {
                i = i + 1;
            }
        }
        match mashup.into_resolved_mashup(&map) {
            Ok(resolved) => Ok(DeviceSetup { mashup: resolved, plugins: map }),
            Err(e) => Err(e),
        }
    }

    /// The sources that the layout draws on.
    pub fn sources(&self) -> (r: Sources<'_>)
        ensures
            match (self@.0, r) {
                (MashupModel::PassThrough(u), Sources::PassThrough(t)) => t@ == u,
                (MashupModel::Single(k), Sources::Single(p)) => find(self@.1, k) == Some(p@),
                (MashupModel::LeftRight { left, right }, Sources::SideBySide(l, r)) => find(
                    self@.1,
                    left,
                ) == Some(l@) && find(self@.1, right) == Some(r@),
                _ => false,
            },
    {
        proof {
            use_type_invariant(self);
        }
        match &self.mashup {
            Mashup::PassThrough(u) => Sources::PassThrough(u.as_str()),
            Mashup::Single(k) => match self.plugins.get(k.as_str()) {
                Some(p) => Sources::Single(p),
                None => {
                    assert(false);
                    Sources::PassThrough(k.as_str())
                },
            },
            Mashup::LeftRight { left, right } => {
                match (self.plugins.get(left.as_str()), self.plugins.get(right.as_str())) {
                    (Some(l), Some(r)) => Sources::SideBySide(l, r),
                    _ => {
                        assert(false);
                        Sources::PassThrough(left.as_str())
                    },
                }
            },
        }
    }
}

proof fn lemma_build_failure_persists(
    configs: Seq<PluginConfigModel>,
    located: Seq<Option<Result<Seq<char>, geolocation::Error>>>,
    from: nat,
    to: nat,
    e: Error,
)
    requires
        from <= to,
        build_plugins(configs, located, from) == Err::<Seq<(Seq<char>, PluginModel)>, Error>(e),
    ensures
        build_plugins(configs, located, to) == Err::<Seq<(Seq<char>, PluginModel)>, Error>(e),
    decreases to - from,
{
    if from < to {
        lemma_build_failure_persists(configs, located, from, (to - 1) as nat, e);
    }
}

/// A device as the endpoints see it: its id and where its document is.
#[derive(Debug)]
pub struct Device {
    pub id: String,
    pub content_resource: Resource,
}

#[derive(Debug)]
struct StoredDevice {
    id: String,
    setup: DeviceSetup,
}

/// The model of a device's setup.
pub type SetupModel = (MashupModel, Seq<(Seq<char>, PluginModel)>);

/// The setup registered last under an id, if any.
pub open spec fn find_device(devices: Seq<(Seq<char>, SetupModel)>, id: Seq<char>) -> Option<SetupModel>
    decreases devices.len(),
{
    if devices.len() == 0 {
        None
    } else if devices.last().0 == id {
        Some(devices.last().1)
    } else {
        find_device(devices.drop_last(), id)
    }
}

/// Where the document of a device with this setup is: the external URL of a
/// pass-through layout, else the document that this service generates.
pub open spec fn content_resource_spec(m: MashupModel, id: Seq<char>) -> Option<ResourceModel> {
    match m {
        MashupModel::PassThrough(u) => Some(ResourceModel::Remote(u)),
        _ => local_under_spec("/content/"@, id),
    }
}

/// The registry of devices, by id.
#[derive(Debug)]
pub struct Storage {
    devices: Vec<StoredDevice>,
}

impl View for Storage {
    type V = Seq<(Seq<char>, SetupModel)>;

    closed spec fn view(&self) -> Seq<(Seq<char>, SetupModel)> {
        self.devices@.map_values(|d: StoredDevice| (d.id@, d.setup@))
    }
}

impl Storage {
    pub fn new() -> (r: Storage)
        ensures
            r@ == Seq::<(Seq<char>, SetupModel)>::empty(),
    {
        let r = Storage { devices: Vec::new() };
        assert(r@ =~= Seq::<(Seq<char>, SetupModel)>::empty());
        r
    }

    /// Registers a device; a later registration under an id replaces an
    /// earlier one.
    pub fn insert(&mut self, id: String, setup: DeviceSetup)
        ensures
            final(self)@ == old(self)@.push((id@, setup@)),
    {
        self.devices.push(StoredDevice { id, setup });
        assert(self@ =~= old(self)@.push((id@, setup@)));
    }

    fn lookup(&self, id: &str) -> (r: Option<&DeviceSetup>)
        ensures
            match r {
                Some(d) => find_device(self@, id@) == Some(d@),
                None => find_device(self@, id@) is None,
            },
    {
        let mut i = self.devices.len();
        assert(self@.take(i as int) =~= self@);
        while i > 0
            invariant
                i <= self.devices@.len(),
                find_device(self@, id@) == find_device(self@.take(i as int), id@),
            decreases i,
        {
            let entry = &self.devices[i - 1];
            assert(self@.take(i as int).drop_last() =~= self@.take(i - 1));
            assert(self@[i - 1] == (entry.id@, entry.setup@));
            if same_text(entry.id.as_str(), id) {
                return Some(&entry.setup);
            }
            i = i - 1;
        }
        None
    }

    /// The device registered under `id`, and where its document is; `None`
    /// where there is no such device, or the URL parser refuses the address
    /// of its generated document.
    pub fn device_by_id(&self, id: &str) -> (r: Option<Device>)
        ensures
            match find_device(self@, id@) {
                None => r is None,
                Some(setup) => match content_resource_spec(setup.0, id@) {
                    None => r is None,
                    Some(res) => r matches Some(d) && d.id@ == id@ && d.content_resource@ == res,
                },
            },
    {
        match self.lookup(id) {
            None => None,
            Some(setup) => match setup.mashup() {
                Mashup::PassThrough(u) => Some(
                    Device { id: id.to_owned(), content_resource: Resource::Remote(u.clone()) },
                ),
                _ => match Resource::self_hosted_content(id) {
                    Some(res) => Some(Device { id: id.to_owned(), content_resource: res }),
                    None => None,
                },
            },
        }
    }

    /// What generates the document of the device registered under `id`.
    pub fn content_generator(&self, id: &str) -> (r: Result<&DeviceSetup, SetupError>)
        ensures
            match r {
                Ok(d) => find_device(self@, id@) == Some(d@),
                Err(e) => e == SetupError::Missing && find_device(self@, id@) is None,
            },
    {
        match self.lookup(id) {
            Some(d) => Ok(d),
            None => Err(SetupError::Missing),
        }
    }
}

} // verus!
