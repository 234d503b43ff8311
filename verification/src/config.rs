//! Repository configuration and its builder.

use vstd::prelude::*;

use crate::text::{append_debug_opt_str, append_debug_opt_u32, debug_opt_str, debug_opt_u32, opt_str_view};

verus! {

/// What a `RepositoryConfig` holds, as mathematical values.
pub struct ConfigView {
    pub primary_mongo_url: Seq<char>,
    pub secondary_mongo_url: Option<Seq<char>>,
    pub app_name: Seq<char>,
    pub database_name: Seq<char>,
    pub collection_name: Seq<char>,
    pub write_concern: Option<u32>,
    pub max_pool_size: Option<u32>,
    pub min_pool_size: Option<u32>,
    pub max_idle_time_secs: Option<u32>,
}

/// What a `RepositoryConfigBuilder` holds, as mathematical values.
pub struct BuilderView {
    pub primary_mongo_url: Option<Seq<char>>,
    pub secondary_mongo_url: Option<Seq<char>>,
    pub app_name: Option<Seq<char>>,
    pub database_name: Option<Seq<char>>,
    pub collection_name: Option<Seq<char>>,
    pub write_concern: Option<u32>,
    pub max_pool_size: Option<u32>,
    pub min_pool_size: Option<u32>,
    pub max_idle_time_secs: Option<u32>,
}

/// Connection and collection settings of a repository.
#[derive(Clone, Debug)]
pub struct RepositoryConfig {
    pub(crate) primary_mongo_url: String,
    secondary_mongo_url: Option<String>,
    pub(crate) app_name: String,
    pub database_name: String,
    pub collection_name: String,
    pub write_concern: Option<u32>,
    pub max_pool_size: Option<u32>,
    pub min_pool_size: Option<u32>,
    pub max_idle_time_secs: Option<u32>,
}

impl View for RepositoryConfig {
    type V = ConfigView;

    closed spec fn view(&self) -> ConfigView {
        ConfigView {
            primary_mongo_url: self.primary_mongo_url@,
            secondary_mongo_url: opt_str_view(self.secondary_mongo_url),
            app_name: self.app_name@,
            database_name: self.database_name@,
            collection_name: self.collection_name@,
            write_concern: self.write_concern,
            max_pool_size: self.max_pool_size,
            min_pool_size: self.min_pool_size,
            max_idle_time_secs: self.max_idle_time_secs,
        }
    }
}

/// Collects the settings of a `RepositoryConfig` one at a time.
pub struct RepositoryConfigBuilder {
    primary_mongo_url: Option<String>,
    secondary_mongo_url: Option<String>,
    app_name: Option<String>,
    database_name: Option<String>,
    collection_name: Option<String>,
    write_concern: Option<u32>,
    max_pool_size: Option<u32>,
    min_pool_size: Option<u32>,
    max_idle_time_secs: Option<u32>,
}

impl View for RepositoryConfigBuilder {
    type V = BuilderView;

    closed spec fn view(&self) -> BuilderView {
        BuilderView {
            primary_mongo_url: opt_str_view(self.primary_mongo_url),
            secondary_mongo_url: opt_str_view(self.secondary_mongo_url),
            app_name: opt_str_view(self.app_name),
            database_name: opt_str_view(self.database_name),
            collection_name: opt_str_view(self.collection_name),
            write_concern: self.write_concern,
            max_pool_size: self.max_pool_size,
            min_pool_size: self.min_pool_size,
            max_idle_time_secs: self.max_idle_time_secs,
        }
    }
}

impl BuilderView {
    /// A builder with nothing set.
    pub open spec fn empty() -> BuilderView {
        BuilderView {
            primary_mongo_url: None,
            secondary_mongo_url: None,
            app_name: None,
            database_name: None,
            collection_name: None,
            write_concern: None,
            max_pool_size: None,
            min_pool_size: None,
            max_idle_time_secs: None,
        }
    }

    /// The three settings without which no configuration can be built.
    pub open spec fn is_complete(self) -> bool {
        &&& self.primary_mongo_url is Some
        &&& self.database_name is Some
        &&& self.collection_name is Some
    }

    /// The configuration that a complete builder produces: the application
    /// name defaults to the empty string, every other optional setting stays
    /// unset.
    pub open spec fn built(self) -> ConfigView
        recommends
            self.is_complete(),
    {
        ConfigView {
            primary_mongo_url: self.primary_mongo_url->0,
            secondary_mongo_url: self.secondary_mongo_url,
            app_name: match self.app_name {
                Some(n) => n,
                None => Seq::empty(),
            },
            database_name: self.database_name->0,
            collection_name: self.collection_name->0,
            write_concern: self.write_concern,
            max_pool_size: self.max_pool_size,
            min_pool_size: self.min_pool_size,
            max_idle_time_secs: self.max_idle_time_secs,
        }
    }
}

/// The one-line description of a configuration: every setting by name, the
/// optional ones in their debug form.
pub open spec fn description(c: ConfigView) -> Seq<char> {
    "RepositoryConfig { primary_mongo_url: "@ + c.primary_mongo_url
        + ", secondary_mongo_url: "@ + debug_opt_str(c.secondary_mongo_url)
        + ", app_name: "@ + c.app_name
        + ", database_name: "@ + c.database_name
        + ", collection_name: "@ + c.collection_name
        + ", write_concern: "@ + debug_opt_u32(c.write_concern)
        + ", max_pool_size: "@ + debug_opt_u32(c.max_pool_size)
        + ", min_pool_size: "@ + debug_opt_u32(c.min_pool_size)
        + ", max_idle_time_secs: "@ + debug_opt_u32(c.max_idle_time_secs)
        + " }"@
}

impl RepositoryConfig {
    /// The configuration's description (its `Display` text).
    pub fn to_string(&self) -> (s: String)
        ensures
            s@ == description(self@),
    {
        let mut s = String::new();
        s.append("RepositoryConfig { primary_mongo_url: ");
        s.append(self.primary_mongo_url.as_str());
        s.append(", secondary_mongo_url: ");
        append_debug_opt_str(&mut s, &self.secondary_mongo_url);
        s.append(", app_name: ");
        s.append(self.app_name.as_str());
        s.append(", database_name: ");
        s.append(self.database_name.as_str());
        s.append(", collection_name: ");
        s.append(self.collection_name.as_str());
        s.append(", write_concern: ");
        append_debug_opt_u32(&mut s, self.write_concern);
        s.append(", max_pool_size: ");
        append_debug_opt_u32(&mut s, self.max_pool_size);
        s.append(", min_pool_size: ");
        append_debug_opt_u32(&mut s, self.min_pool_size);
        s.append(", max_idle_time_secs: ");
        append_debug_opt_u32(&mut s, self.max_idle_time_secs);
        s.append(" }");
        assert(s@ =~= description(self@));
        s
    }
}

impl RepositoryConfig {
    /// Starts a builder with no setting made.
    pub fn builder() -> (b: RepositoryConfigBuilder)
        ensures
            b@ == BuilderView::empty(),
    {
        RepositoryConfigBuilder::default()
    }
}

impl Default for RepositoryConfigBuilder {
    fn default() -> (b: RepositoryConfigBuilder)
        ensures
            b@ == BuilderView::empty(),
    {
        RepositoryConfigBuilder {
            primary_mongo_url: None,
            secondary_mongo_url: None,
            app_name: None,
            database_name: None,
            collection_name: None,
            write_concern: None,
            max_pool_size: None,
            min_pool_size: None,
            max_idle_time_secs: None,
        }
    }
}

impl RepositoryConfigBuilder {
    pub fn primary_mongo_url(self, url: &str) -> (b: RepositoryConfigBuilder)
        ensures
            b@ == (BuilderView { primary_mongo_url: Some(url@), ..self@ }),
    {
        let mut s = self;
        s.primary_mongo_url = Some(String::from_str(url));
        s
    }

    pub fn secondary_mongo_url(self, url: &str) -> (b: RepositoryConfigBuilder)
        ensures
            b@ == (BuilderView { secondary_mongo_url: Some(url@), ..self@ }),
    {
        let mut s = self;
        s.secondary_mongo_url = Some(String::from_str(url));
        s
    }

    pub fn app_name(self, name: &str) -> (b: RepositoryConfigBuilder)
        ensures
            b@ == (BuilderView { app_name: Some(name@), ..self@ }),
    {
        let mut s = self;
        s.app_name = Some(String::from_str(name));
        s
    }

    pub fn database_name(self, name: &str) -> (b: RepositoryConfigBuilder)
        ensures
            b@ == (BuilderView { database_name: Some(name@), ..self@ }),
    {
        let mut s = self;
        s.database_name = Some(String::from_str(name));
        s
    }

    pub fn collection_name(self, name: &str) -> (b: RepositoryConfigBuilder)
        ensures
            b@ == (BuilderView { collection_name: Some(name@), ..self@ }),
    {
        let mut s = self;
        s.collection_name = Some(String::from_str(name));
        s
    }

    pub fn write_concern(self, concern: u32) -> (b: RepositoryConfigBuilder)
        ensures
            b@ == (BuilderView { write_concern: Some(concern), ..self@ }),
    {
        let mut s = self;
        s.write_concern = Some(concern);
        s
    }

    pub fn max_pool_size(self, size: u32) -> (b: RepositoryConfigBuilder)
        ensures
            b@ == (BuilderView { max_pool_size: Some(size), ..self@ }),
    {
        let mut s = self;
        s.max_pool_size = Some(size);
        s
    }

    pub fn min_pool_size(self, size: u32) -> (b: RepositoryConfigBuilder)
        ensures
            b@ == (BuilderView { min_pool_size: Some(size), ..self@ }),
    {
        let mut s = self;
        s.min_pool_size = Some(size);
        s
    }

    pub fn max_idle_time_secs(self, time: u32) -> (b: RepositoryConfigBuilder)
        ensures
            b@ == (BuilderView { max_idle_time_secs: Some(time), ..self@ }),
    {
        let mut s = self;
        s.max_idle_time_secs = Some(time);
        s
    }

    /// Whether `build` can run: the primary URL, the database name and the
    /// collection name are all set.
    pub fn is_complete(&self) -> (r: bool)
        ensures
            r == self@.is_complete(),
    {
        self.primary_mongo_url.is_some() && self.database_name.is_some()
            && self.collection_name.is_some()
    }

    /// Builds the configuration. The primary URL, the database name and the
    /// collection name must have been set.
    pub fn build(self) -> (c: RepositoryConfig)
        requires
            self@.is_complete(),
        ensures
            c@ == self@.built(),
            c@.primary_mongo_url == self@.primary_mongo_url->0,
            c@.database_name == self@.database_name->0,
            c@.collection_name == self@.collection_name->0,
            c@.secondary_mongo_url == self@.secondary_mongo_url,
            self@.app_name matches Some(n) ==> c@.app_name == n,
            self@.app_name is None ==> c@.app_name.len() == 0,
            c@.write_concern == self@.write_concern,
            c@.max_pool_size == self@.max_pool_size,
            c@.min_pool_size == self@.min_pool_size,
            c@.max_idle_time_secs == self@.max_idle_time_secs,
    {
        let app_name = match self.app_name {
            Some(n) => n,
            None => String::new(),
        };
        let primary_mongo_url = match self.primary_mongo_url {
            Some(u) => u,
            None => String::new(),
        };
        let database_name = match self.database_name {
            Some(n) => n,
            None => String::new(),
        };
        let collection_name = match self.collection_name {
            Some(n) => n,
            None => String::new(),
        };
        RepositoryConfig {
            primary_mongo_url,
            secondary_mongo_url: self.secondary_mongo_url,
            app_name,
            database_name,
            collection_name,
            write_concern: self.write_concern,
            max_pool_size: self.max_pool_size,
            min_pool_size: self.min_pool_size,
            max_idle_time_secs: self.max_idle_time_secs,
        }
    }
}

/// Building keeps every setting as it was made: the required names, the
/// optional URL, pool bounds, idle time and write concern unchanged (unset
/// ones stay unset), and the application name, empty when unset.
pub proof fn lemma_build_keeps_settings(b: BuilderView)
    requires
        b.is_complete(),
    ensures
        b.built().primary_mongo_url == b.primary_mongo_url->0,
        b.built().database_name == b.database_name->0,
        b.built().collection_name == b.collection_name->0,
        b.built().secondary_mongo_url == b.secondary_mongo_url,
        b.app_name matches Some(n) ==> b.built().app_name == n,
        b.app_name is None ==> b.built().app_name.len() == 0,
        b.built().write_concern == b.write_concern,
        b.built().max_pool_size == b.max_pool_size,
        b.built().min_pool_size == b.min_pool_size,
        b.built().max_idle_time_secs == b.max_idle_time_secs,
{
}

/// A setting made twice keeps only the later value, whatever the setting.
pub proof fn lemma_later_setting_wins(b: BuilderView, s1: Seq<char>, s2: Seq<char>, n1: u32, n2: u32)
    ensures
        (BuilderView { primary_mongo_url: Some(s2), ..(BuilderView { primary_mongo_url: Some(s1), ..b }) })
            == (BuilderView { primary_mongo_url: Some(s2), ..b }),
        (BuilderView { secondary_mongo_url: Some(s2), ..(BuilderView { secondary_mongo_url: Some(s1), ..b }) })
            == (BuilderView { secondary_mongo_url: Some(s2), ..b }),
        (BuilderView { app_name: Some(s2), ..(BuilderView { app_name: Some(s1), ..b }) })
            == (BuilderView { app_name: Some(s2), ..b }),
        (BuilderView { database_name: Some(s2), ..(BuilderView { database_name: Some(s1), ..b }) })
            == (BuilderView { database_name: Some(s2), ..b }),
        (BuilderView { collection_name: Some(s2), ..(BuilderView { collection_name: Some(s1), ..b }) })
            == (BuilderView { collection_name: Some(s2), ..b }),
        (BuilderView { write_concern: Some(n2), ..(BuilderView { write_concern: Some(n1), ..b }) })
            == (BuilderView { write_concern: Some(n2), ..b }),
        (BuilderView { max_pool_size: Some(n2), ..(BuilderView { max_pool_size: Some(n1), ..b }) })
            == (BuilderView { max_pool_size: Some(n2), ..b }),
        (BuilderView { min_pool_size: Some(n2), ..(BuilderView { min_pool_size: Some(n1), ..b }) })
            == (BuilderView { min_pool_size: Some(n2), ..b }),
        (BuilderView { max_idle_time_secs: Some(n2), ..(BuilderView { max_idle_time_secs: Some(n1), ..b }) })
            == (BuilderView { max_idle_time_secs: Some(n2), ..b }),
{
}

/// Once the primary URL, the database name and the collection name are set,
/// in any order, a configuration can be built, and it holds exactly the
/// values set.
pub proof fn lemma_required_settings_build(b: BuilderView, url: Seq<char>, db: Seq<char>, coll: Seq<char>)
    ensures
        (BuilderView { primary_mongo_url: Some(url), database_name: Some(db), collection_name: Some(coll), ..b })
            .is_complete(),
        (BuilderView { primary_mongo_url: Some(url), database_name: Some(db), collection_name: Some(coll), ..b })
            .built().primary_mongo_url == url,
        (BuilderView { primary_mongo_url: Some(url), database_name: Some(db), collection_name: Some(coll), ..b })
            .built().database_name == db,
        (BuilderView { primary_mongo_url: Some(url), database_name: Some(db), collection_name: Some(coll), ..b })
            .built().collection_name == coll,
{
}

impl RepositoryConfig {
    /// The primary connection string.
    pub fn primary_mongo_url(&self) -> (r: &str)
        ensures
            r@ == self@.primary_mongo_url,
    {
        self.primary_mongo_url.as_str()
    }

    /// The secondary connection string, if one was set.
    pub fn secondary_mongo_url(&self) -> (r: Option<&str>)
        ensures
            match r {
                Some(s) => self@.secondary_mongo_url == Some(s@),
                None => self@.secondary_mongo_url is None,
            },
    {
        match &self.secondary_mongo_url {
            Some(s) => Some(s.as_str()),
            None => None,
        }
    }

    /// The application name reported to the server.
    pub fn app_name(&self) -> (r: &str)
        ensures
            r@ == self@.app_name,
    {
        self.app_name.as_str()
    }

    /// The database that holds the collection.
    pub fn database_name(&self) -> (r: &str)
        ensures
            r@ == self@.database_name,
    {
        self.database_name.as_str()
    }

    /// The collection the repository works on.
    pub fn collection_name(&self) -> (r: &str)
        ensures
            r@ == self@.collection_name,
    {
        self.collection_name.as_str()
    }

    /// Nodes that must acknowledge a write, if set.
    pub fn write_concern(&self) -> (r: Option<u32>)
        ensures
            r == self@.write_concern,
    {
        self.write_concern
    }

    /// The largest connection pool, if set.
    pub fn max_pool_size(&self) -> (r: Option<u32>)
        ensures
            r == self@.max_pool_size,
    {
        self.max_pool_size
    }

    /// The smallest connection pool, if set.
    pub fn min_pool_size(&self) -> (r: Option<u32>)
        ensures
            r == self@.min_pool_size,
    {
        self.min_pool_size
    }

    /// How long a connection may stay idle, in seconds, if set.
    pub fn max_idle_time_secs(&self) -> (r: Option<u32>)
        ensures
            r == self@.max_idle_time_secs,
    {
        self.max_idle_time_secs
    }
}

/// Nodes that must acknowledge a write when the configuration names no
/// write concern: a three-member replica set.
pub const DEFAULT_WRITE_CONCERN: u32 = 3;

/// The settings a database client is created with.
pub struct ClientSettings {
    /// The connection string to parse.
    pub conn_url: String,
    pub app_name: String,
    /// Nodes that must acknowledge each write.
    pub write_concern_nodes: u32,
    pub max_pool_size: Option<u32>,
    pub min_pool_size: Option<u32>,
    pub max_idle_time_secs: Option<u64>,
    /// Reads are made at the majority read concern.
    pub read_concern_majority: bool,
    /// The client declares version 1 of the stable server API.
    pub server_api_v1: bool,
}

impl RepositoryConfig {
    /// The client settings for this configuration: the primary URL, the
    /// application name, the write concern (three nodes where unset), the
    /// pool bounds, the idle time widened to 64 bits, majority reads and
    /// version 1 of the server API.
    pub fn client_settings(&self) -> (s: ClientSettings)
        ensures
            s.conn_url@ == self@.primary_mongo_url,
            s.app_name@ == self@.app_name,
            s.write_concern_nodes == match self@.write_concern {
                Some(w) => w,
                None => DEFAULT_WRITE_CONCERN,
            },
            s.max_pool_size == self@.max_pool_size,
            s.min_pool_size == self@.min_pool_size,
            s.max_idle_time_secs == match self@.max_idle_time_secs {
                Some(t) => Some(t as u64),
                None => None::<u64>,
            },
            s.read_concern_majority,
            s.server_api_v1,
    {
        let write_concern_nodes = match self.write_concern {
            Some(w) => w,
            None => DEFAULT_WRITE_CONCERN,
        };
        let max_idle_time_secs = match self.max_idle_time_secs {
            Some(t) => Some(t as u64),
            None => None,
        };
        ClientSettings {
            conn_url: self.primary_mongo_url.clone(),
            app_name: self.app_name.clone(),
            write_concern_nodes,
            max_pool_size: self.max_pool_size,
            min_pool_size: self.min_pool_size,
            max_idle_time_secs,
            read_concern_majority: true,
            server_api_v1: true,
        }
    }
}

} // verus!
