use serde_json::{Number, Value};
use wiz_devices::errors::QueryError;
use wiz_devices::network::{
    Method, MethodQuery, NetworkConfig, OptionalParams, Params, ParamsFilter, LISTENING_PORT,
    RESPONSE_PORT,
};

fn mask(state: bool, speed: bool, ratio: bool, scene: bool, brightness: bool) -> ParamsFilter {
    ParamsFilter { state, speed, ratio, scene, brightness }
}

fn full() -> Params {
    Params {
        state: Some(true),
        speed: Some(Number::from(10u64)),
        ratio: Some(Number::from(20u64)),
        scene: Some(Number::from(30u64)),
        brightness: Some(Number::from(40u64)),
    }
}

fn fields(p: &Params) -> (Option<bool>, Option<Number>, Option<Number>, Option<Number>, Option<Number>) {
    (p.state, p.speed.clone(), p.ratio.clone(), p.scene.clone(), p.brightness.clone())
}

#[test]
fn new_params_hold_nothing() {
    assert_eq!(fields(&Params::new()), (None, None, None, None, None));
}

#[test]
fn filter_fails_where_the_required_state_is_absent() {
    let mut params = full();
    params.state = None;
    let required = mask(true, false, false, false, false);
    match params.filter(required) {
        Err(QueryError::FilterError { params, filter }) => {
            assert_eq!(filter, required);
            assert_eq!(params.state, None);
            assert_eq!(params.speed, Some(Number::from(10u64)));
            assert_eq!(params.ratio, Some(Number::from(20u64)));
            assert_eq!(params.scene, Some(Number::from(30u64)));
            assert_eq!(params.brightness, Some(Number::from(40u64)));
        },
        Ok(kept) => panic!("expected a failure, got {:?}", kept),
    }
}

#[test]
fn filter_keeps_the_required_state_alone() {
    let kept = full().filter(mask(true, false, false, false, false)).unwrap();
    assert_eq!(fields(&kept), (Some(true), None, None, None, None));
    let mut off = full();
    off.state = Some(false);
    let kept = off.filter(mask(true, false, false, false, false)).unwrap();
    assert_eq!(fields(&kept), (Some(false), None, None, None, None));
}

#[test]
fn filter_keeps_each_required_field_with_its_value() {
    let kept = full().filter(mask(false, true, false, false, false)).unwrap();
    assert_eq!(fields(&kept), (None, Some(Number::from(10u64)), None, None, None));
    let kept = full().filter(mask(false, false, true, false, false)).unwrap();
    assert_eq!(fields(&kept), (None, None, Some(Number::from(20u64)), None, None));
    let kept = full().filter(mask(false, false, false, true, false)).unwrap();
    assert_eq!(fields(&kept), (None, None, None, Some(Number::from(30u64)), None));
    let kept = full().filter(mask(false, false, false, false, true)).unwrap();
    assert_eq!(fields(&kept), (None, None, None, None, Some(Number::from(40u64))));
    let kept = full().filter(mask(true, true, true, true, true)).unwrap();
    assert_eq!(fields(&kept), fields(&full()));
}

#[test]
fn filter_that_requires_nothing_drops_everything() {
    let kept = full().filter(mask(false, false, false, false, false)).unwrap();
    assert_eq!(fields(&kept), (None, None, None, None, None));
    let kept = Params::new().filter(mask(false, false, false, false, false)).unwrap();
    assert_eq!(fields(&kept), (None, None, None, None, None));
}

#[test]
fn filter_fails_for_each_required_field_that_is_absent() {
    let masks = [
        mask(true, false, false, false, false),
        mask(false, true, false, false, false),
        mask(false, false, true, false, false),
        mask(false, false, false, true, false),
        mask(false, false, false, false, true),
    ];
    for (missing, required) in masks.iter().enumerate() {
        let mut params = full();
        match missing {
            0 => params.state = None,
            1 => params.speed = None,
            2 => params.ratio = None,
            3 => params.scene = None,
            _ => params.brightness = None,
        }
        let before = fields(&params);
        assert!(!params.satisfies(required));
        match params.filter(*required) {
            Err(QueryError::FilterError { params, filter }) => {
                assert_eq!(filter, *required);
                assert_eq!(fields(&params), before);
            },
            Ok(kept) => panic!("expected a failure, got {:?}", kept),
        }
        for (other, not_required) in masks.iter().enumerate() {
            if other != missing {
                let mut params = full();
                match missing {
                    0 => params.state = None,
                    1 => params.speed = None,
                    2 => params.ratio = None,
                    3 => params.scene = None,
                    _ => params.brightness = None,
                }
                assert!(params.satisfies(not_required));
                assert!(params.filter(*not_required).is_ok());
            }
        }
    }
}

#[test]
fn filtering_twice_is_filtering_once() {
    let required = mask(true, false, true, false, true);
    let once = full().filter(required).unwrap();
    let twice = once.clone().filter(required).unwrap();
    assert_eq!(fields(&twice), fields(&once));
    assert_eq!(
        fields(&once),
        (Some(true), None, Some(Number::from(20u64)), None, Some(Number::from(40u64)))
    );
}

#[test]
fn patch_replaces_what_it_holds_and_keeps_the_rest() {
    let mut params = full();
    params.patch(OptionalParams::empty());
    assert_eq!(fields(&params), fields(&full()));
    params.patch(OptionalParams {
        state: Some(false),
        speed: None,
        ratio: Some(Number::from(99u64)),
        scene: None,
        brightness: None,
    });
    assert_eq!(
        fields(&params),
        (
            Some(false),
            Some(Number::from(10u64)),
            Some(Number::from(99u64)),
            Some(Number::from(30u64)),
            Some(Number::from(40u64)),
        )
    );
    let mut empty = Params::new();
    empty.apply_options(OptionalParams {
        state: None,
        speed: None,
        ratio: None,
        scene: Some(Number::from(5u64)),
        brightness: None,
    });
    assert_eq!(fields(&empty), (None, None, None, Some(Number::from(5u64)), None));
}

#[test]
fn params_clone_is_equal() {
    let copy = full().clone();
    assert_eq!(fields(&copy), fields(&full()));
    let patch = OptionalParams {
        state: None,
        speed: Some(Number::from(-3i64)),
        ratio: None,
        scene: None,
        brightness: None,
    };
    let copy = patch.clone();
    assert_eq!(copy.speed, Some(Number::from(-3i64)));
    assert_eq!(copy.state, None);
}

#[test]
fn method_holds_what_it_was_made_with() {
    let required = mask(false, false, false, true, false);
    let extra = Value::String(String::from("x"));
    let method = Method::new("setPilot", true, Some(required), Some(extra.clone()));
    assert_eq!(method.name(), "setPilot");
    assert!(method.experimental());
    assert_eq!(method.filter(), Some(required));
    assert_eq!(method.extra_members(), &Some(extra.clone()));
    let copy = method.clone();
    assert_eq!(copy.name(), "setPilot");
    assert_eq!(copy.extra_members(), &Some(extra));
    let plain = Method::new("getPilot", false, None, None);
    assert_eq!(plain.name(), "getPilot");
    assert!(!plain.experimental());
    assert_eq!(plain.filter(), None);
    assert_eq!(plain.extra_members(), &None);
    plain.params(OptionalParams::empty());
}

#[test]
fn query_filters_the_parameters_by_the_mask_of_the_method() {
    let method = Method::new("setPilot", false, Some(mask(false, false, false, true, false)), None);
    let query = MethodQuery::new(method, Some(full())).unwrap();
    assert_eq!(query.method.name(), "setPilot");
    assert_eq!(query.method().name(), "setPilot");
    let kept = query.params().as_ref().unwrap();
    assert_eq!(fields(kept), (None, None, None, Some(Number::from(30u64)), None));
}

#[test]
fn query_fails_where_a_required_parameter_is_absent() {
    let required = mask(false, false, false, true, true);
    let method = Method::new("setPilot", false, Some(required), None);
    let mut params = full();
    params.brightness = None;
    match MethodQuery::new(method, Some(params)) {
        Err(QueryError::FilterError { params, filter }) => {
            assert_eq!(filter, required);
            assert_eq!(params.brightness, None);
            assert_eq!(params.scene, Some(Number::from(30u64)));
        },
        Ok(query) => panic!("expected a failure, got {:?}", query),
    }
}

#[test]
fn query_of_a_method_without_a_mask_carries_no_parameters() {
    let method = Method::new("getPilot", false, None, None);
    let query = MethodQuery::new(method, Some(full())).unwrap();
    assert!(query.params().is_none());
}

#[test]
fn query_without_parameters_carries_none() {
    let method = Method::new("setPilot", false, Some(mask(true, true, true, true, true)), None);
    let query = MethodQuery::new(method, None).unwrap();
    assert!(query.params().is_none());
    assert_eq!(query.method.filter(), Some(mask(true, true, true, true, true)));
}

#[test]
fn standard_network_settings() {
    let config = NetworkConfig::standard();
    assert_eq!(config.timeout, chrono::Duration::seconds(13));
    assert_eq!(config.timeout.num_milliseconds(), 13_000);
    assert_eq!(config.first_send_interval, chrono::Duration::milliseconds(750));
    assert_eq!(config.first_send_interval.num_milliseconds(), 750);
    assert_eq!(config.keepalive.num_milliseconds(), 20);
    assert_eq!(config.max_sent_datagrams, 6);
    assert_eq!(config.max_backoff, 3);
    assert_eq!(config.port, 38899);
    assert_eq!(RESPONSE_PORT, 38899);
    assert_eq!(LISTENING_PORT, 38900);
}
