//! The note service: a name, the storage credentials, and the store that
//! answers add, remove and search.

use crate::config::{Config, FromConfig};
use crate::error_def::BppConfigError;
use crate::note::{views_of, Note};
use crate::store::{NoteStore, StoreView};
use vstd::prelude::*;
use vstd::string::*;

verus! {

/// The credentials under which the storage is reached.
pub struct NoteDao {
    connection_str: String,
    password: String,
}

impl NoteDao {
    /// The address of the storage.
    pub closed spec fn spec_connection_str(&self) -> Seq<char> {
        self.connection_str@
    }

    /// The credential for the storage.
    pub closed spec fn spec_password(&self) -> Seq<char> {
        self.password@
    }

    /// The address of the storage.
    pub fn connection_str(&self) -> (s: &String)
        ensures
            s@ == self.spec_connection_str(),
    {
        &self.connection_str
    }

    /// The credential for the storage.
    pub fn password(&self) -> (s: &String)
        ensures
            s@ == self.spec_password(),
    {
        &self.password
    }
}

impl FromConfig for NoteDao {
    /// Takes the address and the credential from the options; fails where one
    /// of them is empty, the address first.
    fn from_config(config: &Config) -> (r: Result<NoteDao, BppConfigError>)
        ensures
            match r {
                Ok(dao) => {
                    &&& config.database.connection_str@.len() > 0
                    &&& config.database.password_str@.len() > 0
                    &&& dao.spec_connection_str() == config.database.connection_str@
                    &&& dao.spec_password() == config.database.password_str@
                },
                Err(e) => if config.database.connection_str@.len() == 0 {
                    e.detail() == "Storage connection string is missing"@
                } else {
                    config.database.password_str@.len() == 0 && e.detail()
                        == "Storage password is missing"@
                },
            },
    {
        if config.database.connection_str.as_str().is_empty() {
            return Err(
                BppConfigError::FailedToLoadConfigOptions(
                    String::from_str("Storage connection string is missing"),
                ),
            );
        }
        if config.database.password_str.as_str().is_empty() {
            return Err(
                BppConfigError::FailedToLoadConfigOptions(
                    String::from_str("Storage password is missing"),
                ),
            );
        }
        Ok(
            NoteDao {
                connection_str: config.database.connection_str.clone(),
                password: config.database.password_str.clone(),
            },
        )
    }
}

/// The service that owns the notes.
pub struct NoteService {
    service_name: String,
    node: NoteDao,
    store: NoteStore,
}

impl NoteService {
    /// The state of the notes that the service owns.
    pub closed spec fn notes(&self) -> StoreView {
        self.store@
    }

    /// The label that the service goes by.
    pub closed spec fn spec_service_name(&self) -> Seq<char> {
        self.service_name@
    }

    /// The label that the service goes by.
    pub fn service_name(&self) -> (s: &String)
        ensures
            s@ == self.spec_service_name(),
    {
        &self.service_name
    }

    /// The credentials that the service was built with.
    pub closed spec fn spec_node(&self) -> NoteDao {
        self.node
    }

    /// The credentials that the service was built with.
    pub fn node(&self) -> (dao: &NoteDao)
        ensures
            *dao == self.spec_node(),
    {
        &self.node
    }

    /// Add: creates a note and hands back a copy, or `None` where the title or
    /// the body is empty or no identifier is left.
    pub fn add(&mut self, title: &str, content: &str) -> (r: Option<Note>)
        requires
            old(self).notes().wf(),
        ensures
            final(self).notes().wf(),
            final(self).notes() == old(self).notes().spec_add(title@, content@),
            final(self).spec_service_name() == old(self).spec_service_name(),
            final(self).spec_node() == old(self).spec_node(),
            match r {
                Some(note) => old(self).notes().added(title@, content@) == Some(note@),
                None => old(self).notes().added(title@, content@) is None,
            },
    {
        self.store.add(title, content)
    }

    /// Remove: deletes the note with this identifier and hands it back, or
    /// `None` where no live note has it.
    pub fn rm(&mut self, id: &str) -> (r: Option<Note>)
        requires
            old(self).notes().wf(),
        ensures
            final(self).notes().wf(),
            final(self).notes() == old(self).notes().spec_remove(id@),
            final(self).spec_service_name() == old(self).spec_service_name(),
            final(self).spec_node() == old(self).spec_node(),
            match r {
                Some(note) => old(self).notes().removed(id@) == Some(note@),
                None => old(self).notes().removed(id@) is None,
            },
    {
        self.store.remove(id)
    }

    /// Search: the live notes that the query is found in, oldest first.
    pub fn search(&self, query: &str, all: bool) -> (r: Vec<Note>)
        ensures
            views_of(r@) == self.notes().spec_search(query@, all),
    {
        self.store.search(query, all)
    }
}

impl FromConfig for NoteService {
    /// Builds the service, with no note yet, from the options; fails where the
    /// service's name is empty, or else where the credentials cannot be built.
    fn from_config(config: &Config) -> (r: Result<NoteService, BppConfigError>)
        ensures
            match r {
                Ok(service) => {
                    &&& config.service.name@.len() > 0
                    &&& config.database.connection_str@.len() > 0
                    &&& config.database.password_str@.len() > 0
                    &&& service.spec_service_name() == config.service.name@
                    &&& service.spec_node().spec_connection_str()
                        == config.database.connection_str@
                    &&& service.spec_node().spec_password() == config.database.password_str@
                    &&& service.notes().wf()
                    &&& service.notes() == (StoreView { notes: Seq::empty(), issued: 0 })
                },
                Err(e) => if config.service.name@.len() == 0 {
                    e.detail() == "Service name is missing"@
                } else if config.database.connection_str@.len() == 0 {
                    e.detail() == "Storage connection string is missing"@
                } else {
                    config.database.password_str@.len() == 0 && e.detail()
                        == "Storage password is missing"@
                },
            },
    {
        if config.service.name.as_str().is_empty() {
            return Err(
                BppConfigError::FailedToLoadConfigOptions(
                    String::from_str("Service name is missing"),
                ),
            );
        }
        match NoteDao::from_config(config) {
            Ok(node) => Ok(
                NoteService { service_name: config.service.name.clone(), node, store: NoteStore::new() },
            ),
            Err(e) => Err(e),
        }
    }
}

} // verus!
