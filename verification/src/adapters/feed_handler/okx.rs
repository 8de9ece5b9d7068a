//! OKX WebSocket feed handler

use vstd::prelude::*;
use vstd::string::StringExecFns;
use crate::adapters::feed_handler::connection::{next_state, pending, ConnectionState, Directive};
use crate::adapters::feed_handler::error::{FeedError, FeedResult};
use crate::adapters::feed_handler::handler::{report_fits, FeedEvent, FeedHandler, Report};
use crate::config::ExchangeSettings;
use crate::domain::models::{Exchange, MarketTick};

verus! {

/// The credentials of one account: key, secret, and a passphrase where the
/// account has one.
#[derive(Debug, Clone)]
pub struct OkxCredentials {
    pub api_key: String,
    pub api_secret: String,
    pub passphrase: Option<String>,
}

/// Where a handler connects, and as whom.
#[derive(Debug, Clone)]
pub struct OkxConfig {
    pub public_url: String,
    pub private_url: String,
    pub business_url: String,
    /// `None` for a handler of the public streams only.
    pub credentials: Option<OkxCredentials>,
}

impl OkxCredentials {
    /// The credentials made of the three settings, each `None` where unset.
    /// Key and secret are required: where either is missing this fails with
    /// [`FeedError::MissingCredentials`], naming the exchange.
    pub fn from_parts(
        api_key: Option<String>,
        api_secret: Option<String>,
        passphrase: Option<String>,
    ) -> (r: FeedResult<OkxCredentials>)
        ensures
            match r {
                Ok(credentials) => {
                    &&& api_key == Some(credentials.api_key)
                    &&& api_secret == Some(credentials.api_secret)
                    &&& credentials.passphrase == passphrase
                },
                Err(FeedError::MissingCredentials { exchange }) => {
                    &&& api_key is None || api_secret is None
                    &&& exchange@ == Exchange::OKX.spec_name()
                },
                Err(_) => false,
            },
    {
        match (api_key, api_secret) {
            (Some(api_key), Some(api_secret)) => Ok(
                OkxCredentials { api_key, api_secret, passphrase },
            ),
            _ => Err(
                FeedError::MissingCredentials { exchange: String::from_str(Exchange::OKX.name()) },
            ),
        }
    }
}

impl OkxConfig {
    /// The configuration of a handler of the public streams only: the
    /// addresses of `settings`, and no credentials whatever `settings` hold.
    pub fn public(settings: &ExchangeSettings) -> (config: OkxConfig)
        ensures
            config.public_url == settings.okx_ws_public_url,
            config.private_url == settings.okx_ws_private_url,
            config.business_url == settings.okx_ws_business_url,
            config.credentials is None,
    {
        OkxConfig {
            public_url: settings.okx_ws_public_url.clone(),
            private_url: settings.okx_ws_private_url.clone(),
            business_url: settings.okx_ws_business_url.clone(),
            credentials: None,
        }
    }

    /// The configuration of a handler that also signs in to the private and
    /// business channels. It is built only with a key and a secret in
    /// `settings`; without them this fails at once with
    /// [`FeedError::MissingCredentials`].
    pub fn authenticated(settings: &ExchangeSettings) -> (r: FeedResult<OkxConfig>)
        ensures
            match r {
                Ok(config) => {
                    &&& config.public_url == settings.okx_ws_public_url
                    &&& config.private_url == settings.okx_ws_private_url
                    &&& config.business_url == settings.okx_ws_business_url
                    &&& config.credentials matches Some(credentials)
                    &&& settings.okx_api_key == Some(credentials.api_key)
                    &&& settings.okx_api_secret == Some(credentials.api_secret)
                    &&& credentials.passphrase == settings.okx_api_passphrase
                },
                Err(FeedError::MissingCredentials { exchange }) => {
                    &&& settings.okx_api_key is None || settings.okx_api_secret is None
                    &&& exchange@ == Exchange::OKX.spec_name()
                },
                Err(_) => false,
            },
    {
        let credentials: OkxCredentials = match OkxCredentials::from_parts(
            settings.okx_api_key.clone(),
            settings.okx_api_secret.clone(),
            settings.okx_api_passphrase.clone(),
        ) {
            Ok(credentials) => credentials,
            Err(reason) => { return Err(reason); },
        };
        Ok(
            OkxConfig {
                public_url: settings.okx_ws_public_url.clone(),
                private_url: settings.okx_ws_private_url.clone(),
                business_url: settings.okx_ws_business_url.clone(),
                credentials: Some(credentials),
            },
        )
    }
}

/// A handler for the public streams and, with credentials, for the private
/// and business channels too.
pub struct OkxFeedHandler {
    core: FeedHandler,
    config: Option<OkxConfig>,
}

impl OkxFeedHandler {
    /// The configuration of this handler, if it was given one.
    pub closed spec fn configured(&self) -> Option<OkxConfig> {
        self.config
    }

    /// The handle through which this handler publishes its ticks.
    pub closed spec fn publisher(&self) -> tokio::sync::broadcast::Sender<MarketTick> {
        self.core.publisher()
    }

    /// The exchange whose ticks this handler publishes: OKX.
    pub closed spec fn spec_exchange(&self) -> Exchange {
        self.core.spec_exchange()
    }

    /// A handler that publishes through `market_data_tx`, not yet configured.
    pub fn new(market_data_tx: tokio::sync::broadcast::Sender<MarketTick>) -> (handler:
        OkxFeedHandler)
        ensures
            handler.configured() is None,
            handler.publisher() == market_data_tx,
            handler.spec_exchange() == Exchange::OKX,
    {
        OkxFeedHandler { core: FeedHandler::new(Exchange::OKX, market_data_tx), config: None }
    }

    /// A handler that publishes through `market_data_tx` and connects as
    /// `config` says.
    pub fn with_config(
        market_data_tx: tokio::sync::broadcast::Sender<MarketTick>,
        config: OkxConfig,
    ) -> (handler: OkxFeedHandler)
        ensures
            handler.configured() == Some(config),
            handler.publisher() == market_data_tx,
            handler.spec_exchange() == Exchange::OKX,
    {
        OkxFeedHandler {
            core: FeedHandler::new(Exchange::OKX, market_data_tx),
            config: Some(config),
        }
    }

    /// The addresses this handler connects to: none without a configuration,
    /// the public one without credentials, and with credentials the public,
    /// the private and the business one, in this order.
    pub fn endpoints(&self) -> (urls: Vec<String>)
        ensures
            match self.configured() {
                None => urls@.len() == 0,
                Some(config) => if config.credentials is None {
                    urls@ == seq![config.public_url]
                } else {
                    urls@ == seq![config.public_url, config.private_url, config.business_url]
                },
            },
    {
        let mut urls: Vec<String> = Vec::new();
        match &self.config {
            None => {},
            Some(config) => {
                urls.push(config.public_url.clone());
                if config.credentials.is_some() {
                    urls.push(config.private_url.clone());
                    urls.push(config.business_url.clone());
                }
            },
        }
        urls
    }

    /// Takes one event of the connection; see [`FeedHandler::handle`].
    pub fn handle(&self, state: ConnectionState, event: FeedEvent) -> (next: (
        ConnectionState,
        Directive,
        Report,
    ))
        ensures
            next.0 == next_state(state, event.signal()),
            next.1 == pending(next.0),
            report_fits(next.2, event),
    {
        self.core.handle(state, event)
    }
}

} // verus!
