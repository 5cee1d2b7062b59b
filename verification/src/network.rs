//! Remote methods and their parameters.
//!
//! A command to a device names a method and carries parameters. Each method
//! has a mask that says which parameters it requires. Before a command goes
//! out, its parameters are filtered by the mask: a required one that is
//! absent fails the command, and one that is not required is dropped, so
//! that a device gets the parameters of its method and no others.

use crate::errors::QueryError;
use crate::outside::{span_milliseconds, span_of_milliseconds, span_of_seconds, span_seconds};
use chrono::Duration;
use serde_json::{Number, Value};
use vstd::prelude::*;

verus! {

/// The port on which devices answer.
pub const RESPONSE_PORT: u16 = 38899;

/// The port on which devices are listened for.
pub const LISTENING_PORT: u16 = 38900;

/// How commands are sent: how long and how often.
#[derive(Debug, Clone, Copy)]
pub struct NetworkConfig {
    pub timeout: Duration,
    pub max_sent_datagrams: u8,
    pub first_send_interval: Duration,
    pub max_backoff: u8,
    pub keepalive: Duration,
    pub port: u16,
}

impl NetworkConfig {
    /// The settings in use where none are given: 13 s to wait for an answer,
    /// at most 6 datagrams, the first two 750 ms apart, at most 3 times as
    /// long between later ones, a keepalive of 20 ms, and the response port.
    pub open spec fn spec_standard() -> NetworkConfig {
        NetworkConfig {
            timeout: span_of_seconds(13),
            max_sent_datagrams: 6,
            first_send_interval: span_of_milliseconds(750),
            max_backoff: 3,
            keepalive: span_of_milliseconds(20),
            port: RESPONSE_PORT,
        }
    }

    /// The settings in use where none are given.
    pub fn standard() -> (r: Self)
        ensures
            r == Self::spec_standard(),
    {
        NetworkConfig {
            timeout: span_seconds(13),
            max_sent_datagrams: 6,
            first_send_interval: span_milliseconds(750),
            max_backoff: 3,
            keepalive: span_milliseconds(20),
            port: RESPONSE_PORT,
        }
    }
}

/// Which parameters a method requires.
#[derive(Debug, Clone, Copy, PartialEq, Eq, Structural)]
pub struct ParamsFilter {
    pub state: bool,
    pub speed: bool,
    pub ratio: bool,
    pub scene: bool,
    pub brightness: bool,
}

/// The parameters of a command. Each may be absent.
#[derive(Debug)]
pub struct Params {
    pub state: Option<bool>,
    pub speed: Option<Number>,
    pub ratio: Option<Number>,
    pub scene: Option<Number>,
    pub brightness: Option<Number>,
}

/// A patch for [`Params`].
#[derive(Debug)]
pub struct OptionalParams {
    pub state: Option<bool>,
    pub speed: Option<Number>,
    pub ratio: Option<Number>,
    pub scene: Option<Number>,
    pub brightness: Option<Number>,
}

/// A copy of a number that may be absent.
fn copy_of_number(number: &Option<Number>) -> (copy: Option<Number>)
    ensures
        copy == *number,
{
    match number {
        Some(n) => Some(n.clone()),
        None => None,
    }
}

impl Clone for Params {
    fn clone(&self) -> (copy: Self)
        ensures
            copy == *self,
    {
        Params {
            state: self.state,
            speed: copy_of_number(&self.speed),
            ratio: copy_of_number(&self.ratio),
            scene: copy_of_number(&self.scene),
            brightness: copy_of_number(&self.brightness),
        }
    }
}

impl Clone for OptionalParams {
    fn clone(&self) -> (copy: Self)
        ensures
            copy == *self,
    {
        OptionalParams {
            state: self.state,
            speed: copy_of_number(&self.speed),
            ratio: copy_of_number(&self.ratio),
            scene: copy_of_number(&self.scene),
            brightness: copy_of_number(&self.brightness),
        }
    }
}

/// `value` where it is required, and nothing where it is not.
pub open spec fn spec_kept<T>(required: bool, value: Option<T>) -> Option<T> {
    if required {
        value
    } else {
        None
    }
}

/// Keeps a parameter that is required and drops one that is not.
fn kept<T>(required: bool, value: Option<T>) -> (r: Option<T>)
    ensures
        r == spec_kept(required, value),
{
    if required {
        value
    } else {
        None
    }
}

impl OptionalParams {
    /// The patch that changes nothing.
    pub open spec fn spec_empty() -> OptionalParams {
        OptionalParams { state: None, speed: None, ratio: None, scene: None, brightness: None }
    }

    /// The patch that changes nothing.
    pub fn empty() -> (r: Self)
        ensures
            r == Self::spec_empty(),
    {
        OptionalParams { state: None, speed: None, ratio: None, scene: None, brightness: None }
    }
}

impl Params {
    /// The parameters of which every one is absent.
    pub open spec fn spec_new() -> Params {
        Params { state: None, speed: None, ratio: None, scene: None, brightness: None }
    }

    /// The parameters with the fields of `patch` laid over them.
    pub open spec fn spec_merged(&self, patch: OptionalParams) -> Params {
        Params {
            state: crate::overlay::spec_overlay_opt(self.state, patch.state),
            speed: crate::overlay::spec_overlay_opt(self.speed, patch.speed),
            ratio: crate::overlay::spec_overlay_opt(self.ratio, patch.ratio),
            scene: crate::overlay::spec_overlay_opt(self.scene, patch.scene),
            brightness: crate::overlay::spec_overlay_opt(self.brightness, patch.brightness),
        }
    }

    /// Every parameter that `filter` requires is present.
    pub open spec fn spec_satisfies(&self, filter: ParamsFilter) -> bool {
        &&& filter.state ==> self.state is Some
        &&& filter.speed ==> self.speed is Some
        &&& filter.ratio ==> self.ratio is Some
        &&& filter.scene ==> self.scene is Some
        &&& filter.brightness ==> self.brightness is Some
    }

    /// The parameters that `filter` requires, and no others.
    pub open spec fn spec_filtered(&self, filter: ParamsFilter) -> Params {
        Params {
            state: spec_kept(filter.state, self.state),
            speed: spec_kept(filter.speed, self.speed),
            ratio: spec_kept(filter.ratio, self.ratio),
            scene: spec_kept(filter.scene, self.scene),
            brightness: spec_kept(filter.brightness, self.brightness),
        }
    }

    /// What filtering gives: the required parameters where all of them are
    /// present, and else a failure that holds the parameters and the mask.
    pub open spec fn spec_filter(&self, filter: ParamsFilter) -> Result<Params, QueryError> {
        if self.spec_satisfies(filter) {
            Ok(self.spec_filtered(filter))
        } else {
            Err(QueryError::FilterError { params: *self, filter })
        }
    }

    /// Parameters of which every one is absent.
    pub fn new() -> (r: Self)
        ensures
            r == Self::spec_new(),
    {
        Params { state: None, speed: None, ratio: None, scene: None, brightness: None }
    }

    /// Whether every parameter that `filter` requires is present.
    pub fn satisfies(&self, filter: &ParamsFilter) -> (r: bool)
        ensures
            r == self.spec_satisfies(*filter),
    {
        (!filter.state || self.state.is_some()) && (!filter.speed || self.speed.is_some()) && (
        !filter.ratio || self.ratio.is_some()) && (!filter.scene || self.scene.is_some()) && (
        !filter.brightness || self.brightness.is_some())
    }

    /// Lays the fields of `patch` over these parameters. A field that the
    /// patch lacks stays as it was.
    pub fn apply_options(&mut self, patch: OptionalParams)
        ensures
            *final(self) == old(self).spec_merged(patch),
    {
        if patch.state.is_some() {
            self.state = patch.state;
        }
        if patch.speed.is_some() {
            self.speed = patch.speed;
        }
        if patch.ratio.is_some() {
            self.ratio = patch.ratio;
        }
        if patch.scene.is_some() {
            self.scene = patch.scene;
        }
        if patch.brightness.is_some() {
            self.brightness = patch.brightness;
        }
    }

    /// Lays the fields of `patch` over these parameters.
    pub fn patch(&mut self, patch: OptionalParams)
        ensures
            *final(self) == old(self).spec_merged(patch),
    {
        self.apply_options(patch)
    }

    /// Keeps the parameters that `filter` requires and drops the others.
    /// Fails where a required parameter is absent.
    pub fn filter(self, filter: ParamsFilter) -> (r: Result<Self, QueryError>)
        ensures
            r == self.spec_filter(filter),
            r is Ok <==> self.spec_satisfies(filter),
    {
        if !self.satisfies(&filter) {
            return Err(QueryError::FilterError { params: self, filter });
        }
        let mut filtered = Self::new();
        filtered.apply_options(
            OptionalParams {
                state: kept(filter.state, self.state),
                speed: kept(filter.speed, self.speed),
                ratio: kept(filter.ratio, self.ratio),
                scene: kept(filter.scene, self.scene),
                brightness: kept(filter.brightness, self.brightness),
            },
        );
        Ok(filtered)
    }
}

/// What passes a filter holds a parameter exactly where the mask requires
/// it, with the value that it had.
pub proof fn lemma_filter_exact(params: Params, filter: ParamsFilter)
    requires
        params.spec_satisfies(filter),
    ensures
        ({
            let kept = params.spec_filtered(filter);
            &&& kept.state is Some <==> filter.state
            &&& kept.speed is Some <==> filter.speed
            &&& kept.ratio is Some <==> filter.ratio
            &&& kept.scene is Some <==> filter.scene
            &&& kept.brightness is Some <==> filter.brightness
            &&& filter.state ==> kept.state == params.state
            &&& filter.speed ==> kept.speed == params.speed
            &&& filter.ratio ==> kept.ratio == params.ratio
            &&& filter.scene ==> kept.scene == params.scene
            &&& filter.brightness ==> kept.brightness == params.brightness
        }),
{
}

/// What has passed a filter passes it again, unchanged.
pub proof fn lemma_filter_idempotent(params: Params, filter: ParamsFilter)
    requires
        params.spec_satisfies(filter),
    ensures
        params.spec_filtered(filter).spec_satisfies(filter),
        params.spec_filtered(filter).spec_filtered(filter) == params.spec_filtered(filter),
{
}

/// A remote method.
#[derive(Debug)]
pub struct Method {
    name: &'static str,
    experimental: bool,
    filter: Option<ParamsFilter>,
    extra_members: Option<Value>,
}

impl Clone for Method {
    fn clone(&self) -> (copy: Self)
        ensures
            copy == *self,
    {
        Method {
            name: self.name,
            experimental: self.experimental,
            filter: self.filter,
            extra_members: match &self.extra_members {
                Some(members) => Some(members.clone()),
                None => None,
            },
        }
    }
}

impl Method {
    /// The name under which devices know the method.
    pub closed spec fn spec_name(&self) -> &'static str {
        self.name
    }

    /// The method is not part of the settled protocol.
    pub closed spec fn spec_experimental(&self) -> bool {
        self.experimental
    }

    /// The parameters that the method requires, if it takes any.
    pub closed spec fn spec_filter(&self) -> Option<ParamsFilter> {
        self.filter
    }

    /// What a command of this method carries besides its parameters.
    pub closed spec fn spec_extra_members(&self) -> Option<Value> {
        self.extra_members
    }

    /// A method.
    pub fn new(
        name: &'static str,
        experimental: bool,
        filter: Option<ParamsFilter>,
        extra_members: Option<Value>,
    ) -> (r: Self)
        ensures
            r.spec_name() == name,
            r.spec_experimental() == experimental,
            r.spec_filter() == filter,
            r.spec_extra_members() == extra_members,
    {
        Method { name, experimental, filter, extra_members }
    }

    /// The name under which devices know the method.
    pub fn name(&self) -> (r: &'static str)
        ensures
            r == self.spec_name(),
    {
        self.name
    }

    /// Whether the method is not part of the settled protocol.
    pub fn experimental(&self) -> (r: bool)
        ensures
            r == self.spec_experimental(),
    {
        self.experimental
    }

    /// The parameters that the method requires, if it takes any.
    pub fn filter(&self) -> (r: Option<ParamsFilter>)
        ensures
            r == self.spec_filter(),
    {
        self.filter
    }

    /// What a command of this method carries besides its parameters.
    pub fn extra_members(&self) -> (r: &Option<Value>)
        ensures
            *r == self.spec_extra_members(),
    {
        &self.extra_members
    }

    /// Takes the method and a patch for parameters, and does nothing with
    /// them.
    pub fn params(self, params: OptionalParams) {
    }
}

/// A method with the parameters of one command.
#[derive(Debug)]
pub struct MethodQuery {
    pub method: Method,
    params: Option<Params>,
}

impl MethodQuery {
    /// The method of the command.
    pub closed spec fn spec_method(&self) -> Method {
        self.method
    }

    /// The parameters of the command, filtered.
    pub closed spec fn spec_params(&self) -> Option<Params> {
        self.params
    }

    /// The parameters that a command of `method` carries where `params` are
    /// given for it: none where none are given or the method takes none, and
    /// else the given ones filtered by the mask of the method.
    pub open spec fn spec_params_for(method: Method, params: Option<Params>) -> Result<
        Option<Params>,
        QueryError,
    > {
        match (params, method.spec_filter()) {
            (Some(given), Some(filter)) => match given.spec_filter(filter) {
                Ok(kept) => Ok(Some(kept)),
                Err(e) => Err(e),
            },
            _ => Ok(None),
        }
    }

    /// A command of `method`. Fails where the method requires a parameter
    /// that is absent from `params`.
    pub fn new(method: Method, params: Option<Params>) -> (r: Result<Self, QueryError>)
        ensures
            match Self::spec_params_for(method, params) {
                Ok(kept) => r is Ok && r->Ok_0.spec_method() == method && r->Ok_0.spec_params()
                    == kept,
                Err(e) => r == Err::<Self, QueryError>(e),
            },
    {
        let params = match params {
            Some(given) => match method.filter() {
                Some(filter) => match given.filter(filter) {
                    Ok(kept) => Some(kept),
                    Err(e) => {
                        return Err(e);
                    },
                },
                None => None,
            },
            None => None,
        };
        Ok(MethodQuery { method, params })
    }

    /// The method of the command.
    pub fn method(&self) -> (r: &Method)
        ensures
            *r == self.spec_method(),
    {
        &self.method
    }

    /// The parameters of the command, filtered.
    pub fn params(&self) -> (r: &Option<Params>)
        ensures
            *r == self.spec_params(),
    {
        &self.params
    }
}

/// The methods that read from a device.
#[derive(Debug, Clone)]
pub struct GetMethods {
    pub get_power: Method,
    pub get_system: Method,
    pub get_model: Method,
    pub get_user: Method,
    pub get_direct: Method,
    pub get_intensity: Method,
    pub get_hue: Method,
    pub get_speed: Method,
    pub get_scene: Method,
}

/// The methods that write to a device.
#[derive(Debug, Clone)]
pub struct SetMethods {
    pub set_legacy_any: Method,
    pub set_any: Method,
    pub set_intensity: Method,
    pub set_hue: Method,
    pub set_speed: Method,
    pub set_scene: Method,
}

/// The methods that switch or restart a device.
#[derive(Debug, Clone)]
pub struct StatusMethods {
    pub reboot: Method,
    pub reset: Method,
    pub on: Method,
    pub off: Method,
}

/// All methods.
#[derive(Debug, Clone)]
pub struct Methods {
    pub get: GetMethods,
    pub set: SetMethods,
    pub status: StatusMethods,
    pub update: Method,
}

} // verus!
