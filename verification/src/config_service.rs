//! A thin service handle around one loaded configuration.
use crate::autocommit_config::AutocommitConfig;
use crate::config_data::ConfigData;
use crate::config_item::ValidationError;
use crate::config_key::{key_name_spec, ConfigKey};
use vstd::prelude::*;

verus! {

pub struct AutocommitService {
    config: AutocommitConfig,
}

impl AutocommitService {
    /// Wraps a configuration that was already loaded; reading and writing the
    /// configuration file is the surrounding program's concern.
    pub fn new(config: AutocommitConfig) -> (r: Self)
        ensures
            r.view_config() == config.config_data,
    {
        Self { config }
    }

    /// The held configuration record.
    pub closed spec fn view_config(&self) -> ConfigData {
        self.config.config_data
    }

    pub fn update_config(&mut self, key: &ConfigKey, value: &str) -> (r: Result<
        (),
        ValidationError,
    >)
        ensures
            r is Ok <==> ConfigData::accepts_value(*key, value@),
            r is Ok ==> ConfigData::same_except(
                &old(self).view_config(),
                &final(self).view_config(),
                *key,
            ) && final(self).view_config().rep_of(*key) == value@ && (old(self).view_config().inv()
                ==> final(self).view_config().inv()),
            r is Err ==> final(self).view_config() == old(self).view_config(),
    {
        self.config.update_config(key, value)
    }

    pub fn get_config_value(&self, key: &ConfigKey) -> (r: String)
        ensures
            r@ == self.view_config().rep_of(*key),
    {
        self.config.get_config_value(key)
    }

    pub fn get_config_values(&self, keys: &[ConfigKey]) -> (r: Vec<(String, String)>)
        ensures
            r@.len() == keys@.len(),
            forall|i: int|
                0 <= i < keys@.len() ==> (#[trigger] r@[i]).0@ == key_name_spec(keys@[i])
                    && r@[i].1@ == self.view_config().rep_of(keys@[i]),
    {
        self.config.get_config_values(keys)
    }

    pub fn get_config(&self) -> (r: &AutocommitConfig)
        ensures
            r.config_data == self.view_config(),
    {
        &self.config
    }
}

} // verus!
