use ferrisetw::guid::Guid;
use ferrisetw::native::pla::PlaError;
use ferrisetw::provider::kernel_providers::kernel_flags::{
    EVENT_TRACE_FLAG_IMAGE_LOAD, EVENT_TRACE_FLAG_PROCESS,
};
use ferrisetw::provider::kernel_providers::kernel_guids::{IMAGE_LOAD_GUID, PROCESS_GUID};
use ferrisetw::provider::kernel_providers::{image_load_provider, lookup, KernelProvider};
use ferrisetw::provider::{Provider, ProviderError, DEFAULT_LEVEL};
use std::sync::atomic::{AtomicU64, AtomicUsize, Ordering};
use std::sync::Arc;

#[derive(Clone, Copy, Debug, PartialEq, Eq)]
struct EventRecord {
    id: u64,
}

struct SchemaLocator {
    resolved: Vec<u64>,
}

type TestProvider = Provider<EventRecord, SchemaLocator>;

#[test]
fn test_set_guid() {
    let prov = TestProvider::new().by_guid("22fb2cd6-0e7b-422b-a0c7-2fad1fd0e716");
    assert_eq!(true, prov.guid.is_some());
}

#[test]
fn test_set_guid_value() {
    let prov = TestProvider::new().by_guid("22fb2cd6-0e7b-422b-a0c7-2fad1fd0e716");
    assert_eq!(
        Guid::from("22fb2cd6-0e7b-422b-a0c7-2fad1fd0e716"),
        prov.guid.unwrap()
    );
}

#[test]
fn test_set_level() {
    let prov = TestProvider::new().level(1);
    assert_eq!(1, prov.level);
}

#[test]
fn test_set_any() {
    let prov = TestProvider::new().any(0x1993);
    assert_eq!(0x1993, prov.any);
}

#[test]
fn test_set_all() {
    let prov = TestProvider::new().all(0x1302);
    assert_eq!(0x1302, prov.all);
}

#[test]
fn test_set_trace_flags() {
    let prov = TestProvider::new().trace_flags(100);
    assert_eq!(100, prov.trace_flags);
}

#[test]
fn test_set_callback() {
    let prov = Provider::new().add_callback(|_x: EventRecord, _y: &mut SchemaLocator| {});
    assert_eq!(1, prov.callback_count());
}

#[test]
fn test_set_multiple_callbacks() {
    let prov = Provider::new()
        .add_callback(|_x: EventRecord, _y: &mut SchemaLocator| {})
        .add_callback(|_x, _y| {})
        .add_callback(|_x, _y| {});
    assert_eq!(3, prov.callback_count());
}

#[test]
fn test_builder_fail_no_guid() {
    let prov = TestProvider::new().build();
    assert_eq!(true, prov.is_err());
}

#[test]
fn test_builder_return_ok() {
    let prov = TestProvider::new()
        .by_guid("22fb2cd6-0e7b-422b-a0c7-2fad1fd0e716")
        .build();
    assert_eq!(true, prov.is_ok());
}

#[test]
fn test_kernel_provider_struct() {
    let kernel_provider = KernelProvider::new("D396B546-287D-4712-A7F5-8BE226A8C643", 0x10000);

    assert_eq!(0x10000, kernel_provider.flags);
    assert_eq!(
        Guid::from("D396B546-287D-4712-A7F5-8BE226A8C643"),
        kernel_provider.guid
    );
}

#[test]
fn test_kernel_provider_is_binded_to_provider() {
    let kernel_provider = TestProvider::kernel(&image_load_provider()).build();

    assert_eq!(true, kernel_provider.is_ok());

    let kernel_provider = kernel_provider.unwrap();

    assert_eq!(EVENT_TRACE_FLAG_IMAGE_LOAD, kernel_provider.flags);
    assert_eq!(true, kernel_provider.guid.is_some());
    assert_eq!(Guid::from(IMAGE_LOAD_GUID), kernel_provider.guid.unwrap());
}

#[test]
fn new_provider_has_defaults() {
    let prov = TestProvider::new();
    assert_eq!(None, prov.guid);
    assert_eq!(0, prov.any);
    assert_eq!(0, prov.all);
    assert_eq!(5, prov.level);
    assert_eq!(5, DEFAULT_LEVEL);
    assert_eq!(0, prov.trace_flags);
    assert_eq!(0, prov.flags);
    assert_eq!(0, prov.callback_count());
}

#[test]
fn setters_leave_the_other_fields_alone() {
    let prov = TestProvider::new()
        .by_guid("22fb2cd6-0e7b-422b-a0c7-2fad1fd0e716")
        .any(0xf0010000000003ff)
        .all(0x4000000000000000)
        .level(3)
        .trace_flags(0x1)
        .add_callback(|_x, _y| {});
    assert_eq!(
        Some(Guid::from("22fb2cd6-0e7b-422b-a0c7-2fad1fd0e716")),
        prov.guid
    );
    assert_eq!(0xf0010000000003ff, prov.any);
    assert_eq!(0x4000000000000000, prov.all);
    assert_eq!(3, prov.level);
    assert_eq!(0x1, prov.trace_flags);
    assert_eq!(0, prov.flags);
    assert_eq!(1, prov.callback_count());
}

#[test]
fn an_all_zero_filter_is_legal() {
    let prov = TestProvider::new()
        .by_guid("22fb2cd6-0e7b-422b-a0c7-2fad1fd0e716")
        .any(0)
        .all(0)
        .build()
        .unwrap();
    assert_eq!(0, prov.any);
    assert_eq!(0, prov.all);
    assert_eq!(5, prov.level);
}

#[test]
fn build_without_identity_is_no_guid() {
    let result = TestProvider::new().any(1).level(2).build();
    assert!(matches!(result, Err(ProviderError::NoGuid)));
}

#[test]
fn build_keeps_the_configuration() {
    let built = TestProvider::new()
        .by_guid("{22FB2CD6-0E7B-422B-A0C7-2FAD1FD0E716}")
        .level(4)
        .add_callback(|_x, _y| {})
        .add_callback(|_x, _y| {})
        .build()
        .unwrap();
    assert_eq!(
        Some(Guid::from("22fb2cd6-0e7b-422b-a0c7-2fad1fd0e716")),
        built.guid
    );
    assert_eq!(4, built.level);
    assert_eq!(2, built.callback_count());
}

#[test]
fn try_by_guid_accepts_well_formed_text() {
    let prov = TestProvider::new()
        .try_by_guid("1C95126E-7EEA-49A9-A3FE-A378B03DDB4D")
        .unwrap();
    assert_eq!(
        Some(Guid {
            data1: 0x1c95126e,
            data2: 0x7eea,
            data3: 0x49a9,
            data4: [0xa3, 0xfe, 0xa3, 0x78, 0xb0, 0x3d, 0xdb, 0x4d],
        }),
        prov.guid
    );
}

#[test]
fn try_by_guid_rejects_malformed_text() {
    for text in [
        "",
        "22fb2cd6",
        "22fb2cd6-0e7b-422b-a0c7-2fad1fd0e71",
        "22fb2cd6-0e7b-422b-a0c7-2fad1fd0e7166",
        "22fb2cd6+0e7b-422b-a0c7-2fad1fd0e716",
        "22fb2cd6-0e7b-422b-a0c7-2fad1fd0e71g",
        "{22fb2cd6-0e7b-422b-a0c7-2fad1fd0e716",
        "22fb2cd6-0e7b-422b-a0c7-2fad1fd0e716}",
        "(22fb2cd6-0e7b-422b-a0c7-2fad1fd0e716)",
        "22fb2cd60e7b422ba0c72fad1fd0e716",
        "22fb2cd6-0e7b-422b-a0c7-2fad1fd0e7é6",
    ] {
        let result = TestProvider::new().try_by_guid(text);
        assert!(
            matches!(result, Err(ProviderError::MalformedGuid)),
            "{:?}",
            text
        );
    }
}

#[test]
fn by_name_takes_the_identifier_that_was_found() {
    let found = Guid::from("22fb2cd6-0e7b-422b-a0c7-2fad1fd0e716");
    let prov = TestProvider::new().level(2).by_name(Ok(found)).unwrap();
    assert_eq!(Some(found), prov.guid);
    assert_eq!(2, prov.level);
    assert!(prov.build().is_ok());
}

#[test]
fn by_name_hands_on_a_failed_lookup() {
    let result = TestProvider::new().by_name(Err(PlaError::NotFound));
    assert!(matches!(
        result,
        Err(ProviderError::ComProvider(PlaError::NotFound))
    ));
    let result = TestProvider::new()
        .by_guid("22fb2cd6-0e7b-422b-a0c7-2fad1fd0e716")
        .by_name(Err(PlaError::ComHResultError(-2147024891)));
    assert!(matches!(
        result,
        Err(ProviderError::ComProvider(PlaError::ComHResultError(
            -2147024891
        )))
    ));
}

#[test]
fn provider_error_from_lookup_failure() {
    assert_eq!(
        ProviderError::ComProvider(PlaError::NotFound),
        ProviderError::from(PlaError::NotFound)
    );
}

#[test]
fn identity_set_by_any_of_the_three_ways_builds() {
    assert!(TestProvider::new()
        .by_guid("22fb2cd6-0e7b-422b-a0c7-2fad1fd0e716")
        .build()
        .is_ok());
    assert!(TestProvider::new()
        .by_name(Ok(Guid::from("22fb2cd6-0e7b-422b-a0c7-2fad1fd0e716")))
        .unwrap()
        .build()
        .is_ok());
    assert!(TestProvider::kernel(&image_load_provider()).build().is_ok());
    assert!(TestProvider::new().any(1).all(2).level(3).trace_flags(4).build().is_err());
}

#[test]
fn kernel_entry_scenario() {
    let entry = lookup("process").unwrap();
    let provider = Provider::kernel(&entry);
    assert_eq!(EVENT_TRACE_FLAG_PROCESS, provider.flags);
    assert_eq!(Some(Guid::from(PROCESS_GUID)), provider.guid);

    let calls: Vec<Arc<AtomicUsize>> = (0..3).map(|_| Arc::new(AtomicUsize::new(0))).collect();
    let seen: Vec<Arc<AtomicU64>> = (0..3).map(|_| Arc::new(AtomicU64::new(0))).collect();
    let mut provider = provider;
    for i in 0..3 {
        let calls = calls[i].clone();
        let seen = seen[i].clone();
        provider = provider.add_callback(move |record: EventRecord, _y: &mut SchemaLocator| {
            calls.fetch_add(1, Ordering::SeqCst);
            seen.store(record.id, Ordering::SeqCst);
        });
    }
    assert_eq!(3, provider.callback_count());

    let mut provider = provider.build().unwrap();
    let mut locator = SchemaLocator { resolved: Vec::new() };
    provider.on_event(EventRecord { id: 77 }, &mut locator);
    for i in 0..3 {
        assert_eq!(1, calls[i].load(Ordering::SeqCst));
        assert_eq!(77, seen[i].load(Ordering::SeqCst));
    }
    assert!(locator.resolved.is_empty());
    assert_eq!(3, provider.callback_count());
}

#[test]
fn delivery_without_consumers_leaves_the_locator_alone() {
    let mut provider = TestProvider::new()
        .by_guid("22fb2cd6-0e7b-422b-a0c7-2fad1fd0e716")
        .build()
        .unwrap();
    let mut locator = SchemaLocator { resolved: vec![4, 5] };
    provider.on_event(EventRecord { id: 1 }, &mut locator);
    assert_eq!(vec![4, 5], locator.resolved);
    assert_eq!(0, provider.callback_count());
}

#[test]
fn each_consumer_works_on_the_locator_as_the_one_before_left_it() {
    let mut provider = TestProvider::new().by_guid("22fb2cd6-0e7b-422b-a0c7-2fad1fd0e716");
    for mark in 1..=4u64 {
        provider = provider.add_callback(move |record: EventRecord, locator: &mut SchemaLocator| {
            let before: Vec<u64> = (1..mark).map(|m| m * 100 + record.id).collect();
            assert_eq!(before, locator.resolved);
            locator.resolved.push(mark * 100 + record.id);
        });
    }
    let mut provider = provider.build().unwrap();
    let mut locator = SchemaLocator { resolved: Vec::new() };
    provider.on_event(EventRecord { id: 7 }, &mut locator);
    assert_eq!(vec![107, 207, 307, 407], locator.resolved);
    locator.resolved.clear();
    provider.on_event(EventRecord { id: 8 }, &mut locator);
    assert_eq!(vec![108, 208, 308, 408], locator.resolved);
    assert_eq!(4, provider.callback_count());
}
