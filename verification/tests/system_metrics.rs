use herdr_night_watch::system_metrics::{
    cpu_temperature_refresh_interval, decode_lhm_chunked_body, filetime_value,
    parse_lhm_http_body, parse_lhm_http_headers, NvidiaCache, NvidiaTelemetry, Sampler,
    TemperatureCache, CPU_TEMPERATURE_MAX_RETRY_INTERVAL_SECS,
    CPU_TEMPERATURE_REFRESH_INTERVAL_SECS, CPU_TEMPERATURE_RETRY_INTERVAL_SECS,
    CPU_TEMPERATURE_STALE_AFTER_MS, retain_local_lhm_endpoints, sweep_replies, HostAddress,
    SensorEndpoint, SensorSweep, response_complete, LhmHttpHeaders,
};

#[test]
fn unavailable_and_stale_temperatures_are_not_reported() {
    let mut sampler = TemperatureCache::new();
    let now = 1_000_000u64;
    sampler.apply_update(Some(68), now);
    assert_eq!(sampler.reading(now), Some(68));
    sampler.apply_update(None, now);
    assert_eq!(sampler.reading(now), None);
    sampler.apply_update(Some(69), now - CPU_TEMPERATURE_STALE_AFTER_MS - 1);
    assert_eq!(sampler.reading(now), None);
}

#[test]
fn cpu_temperature_retry_interval_backs_off_caps_and_resets_after_success() {
    let mut retry_interval = CPU_TEMPERATURE_RETRY_INTERVAL_SECS;
    assert_eq!(cpu_temperature_refresh_interval(false, &mut retry_interval), 30);
    assert_eq!(cpu_temperature_refresh_interval(false, &mut retry_interval), 60);
    assert_eq!(cpu_temperature_refresh_interval(false, &mut retry_interval), 120);
    assert_eq!(cpu_temperature_refresh_interval(false, &mut retry_interval), 240);
    assert_eq!(
        cpu_temperature_refresh_interval(false, &mut retry_interval),
        CPU_TEMPERATURE_MAX_RETRY_INTERVAL_SECS
    );
    assert_eq!(
        cpu_temperature_refresh_interval(false, &mut retry_interval),
        CPU_TEMPERATURE_MAX_RETRY_INTERVAL_SECS
    );
    assert_eq!(
        cpu_temperature_refresh_interval(true, &mut retry_interval),
        CPU_TEMPERATURE_REFRESH_INTERVAL_SECS
    );
    assert_eq!(
        cpu_temperature_refresh_interval(false, &mut retry_interval),
        CPU_TEMPERATURE_RETRY_INTERVAL_SECS
    );
}

#[test]
fn http_headers_need_status_200_and_a_complete_block() {
    let partial = b"HTTP/1.1 200 OK\r\nContent-Length: 5\r\n";
    assert_eq!(parse_lhm_http_headers(partial), Ok(None));
    let full = b"HTTP/1.1 200 OK\r\nContent-Length: 5\r\n\r\nhello";
    let headers = parse_lhm_http_headers(full).unwrap().unwrap();
    assert_eq!(headers.body_start, 38);
    assert_eq!(headers.content_length, Some(5));
    assert!(!headers.chunked);
    assert_eq!(parse_lhm_http_body(full).unwrap(), b"hello".to_vec());
    assert_eq!(parse_lhm_http_headers(b"HTTP/1.1 404 Not Found\r\n\r\n"), Err(()));
    assert_eq!(parse_lhm_http_headers(b"HTTP/1.1 200 OK\r\nbroken\r\n\r\n"), Err(()));
    assert_eq!(
        parse_lhm_http_headers(b"HTTP/1.1 200 OK\r\ncontent-length: 2000000\r\n\r\n"),
        Err(())
    );
}

#[test]
fn chunked_sensor_bodies_are_decoded() {
    let response = b"HTTP/1.1 200 OK\r\nTransfer-Encoding: gzip, Chunked\r\n\r\n4;ext=1\r\n{\"a\"\r\n3\r\n:1}\r\n0\r\n\r\n";
    let headers = parse_lhm_http_headers(response).unwrap().unwrap();
    assert!(headers.chunked);
    assert_eq!(parse_lhm_http_body(response).unwrap(), b"{\"a\":1}".to_vec());
    assert_eq!(decode_lhm_chunked_body(b"A\r\n0123456789\r\n0\r\n\r\n").unwrap(), b"0123456789".to_vec());
    assert_eq!(decode_lhm_chunked_body(b"5\r\nabc\r\n0\r\n\r\n"), Err(()));
    assert_eq!(decode_lhm_chunked_body(b"zz\r\nabc\r\n"), Err(()));
    assert_eq!(decode_lhm_chunked_body(b"3\r\nabcX0\r\n"), Err(()));
}

#[test]
fn graphics_card_is_read_every_ten_seconds_until_it_fails() {
    let mut cache = NvidiaCache::new();
    assert!(cache.read_due(0));
    let reading = NvidiaTelemetry {
        temperature_c: Some(55),
        power_watts: Some(120),
        power_percent: Some(40),
        vram_percent: Some(30),
    };
    assert_eq!(cache.record(1_000, Some(reading)), Some(reading));
    assert!(!cache.read_due(5_000));
    assert!(cache.read_due(11_000));
    assert_eq!(cache.record(11_000, None), None);
    assert!(!cache.read_due(100_000));
}

#[test]
fn a_sample_combines_its_parts() {
    let mut sampler = Sampler::new();
    let reading = NvidiaTelemetry {
        temperature_c: Some(61),
        power_watts: Some(200),
        power_percent: Some(50),
        vram_percent: Some(20),
    };
    sampler.temperature.apply_update(Some(70), 0);
    let m = sampler.sample(1_000, Some(12), Some(150), Some(33), Some(Some(reading)));
    assert_eq!(m.ram_percent, Some(100));
    assert_eq!(m.gpu_temperature_c, Some(61));
    assert_eq!(m.cpu_temperature_c, Some(70));
    assert_eq!(m.vram_percent, Some(20));
    assert_eq!(filetime_value(1, 2), 4_294_967_298);
}

#[test]
fn a_sample_drops_a_stale_temperature_and_keeps_percentages_in_range() {
    let mut sampler = Sampler::new();
    let reading = NvidiaTelemetry {
        temperature_c: Some(61),
        power_watts: Some(200),
        power_percent: Some(180),
        vram_percent: Some(101),
    };
    let m = sampler.sample(500, None, None, None, None);
    assert_eq!(m.cpu_temperature_c, None);
    sampler.temperature.apply_update(Some(72), 1_000);
    let m = sampler.sample(20_000, Some(250), None, Some(100), Some(Some(reading)));
    assert_eq!(m.cpu_temperature_c, Some(72));
    assert_eq!(m.cpu_percent, Some(100));
    assert_eq!(m.gpu_percent, Some(100));
    assert_eq!(m.gpu_power_percent, Some(100));
    assert_eq!(m.vram_percent, Some(100));
    assert_eq!(sampler.nvidia.last_read_ms, Some(20_000));
    let m = sampler.sample(31_000, None, None, None, None);
    assert_eq!(m.cpu_temperature_c, None);
    assert_eq!(sampler.temperature.cached, None);
    assert_eq!(m.gpu_temperature_c, Some(61));
}

fn endpoint(address: &str, host: Option<HostAddress>) -> SensorEndpoint {
    SensorEndpoint { address: address.to_string(), host, port: 8085 }
}

#[test]
fn lhm_endpoint_discovery_rejects_addresses_outside_local_interfaces() {
    let local_address = HostAddress::V4(0xC0A8_0118);
    let endpoints = vec![
        endpoint("127.0.0.1", Some(HostAddress::V4(0x7F00_0001))),
        endpoint("::1", Some(HostAddress::V6(1))),
        endpoint("192.168.1.24", Some(local_address)),
        endpoint("192.0.2.44", Some(HostAddress::V4(0xC000_022C))),
        endpoint("0.0.0.0", Some(HostAddress::V4(0))),
        endpoint("::", Some(HostAddress::V6(0))),
    ];
    let retained = retain_local_lhm_endpoints(endpoints, &[local_address]);
    assert_eq!(
        retained.iter().map(|endpoint| endpoint.address.as_str()).collect::<Vec<_>>(),
        ["127.0.0.1", "::1", "192.168.1.24"]
    );
}

#[test]
fn endpoints_without_an_address_or_with_any_loopback_address() {
    let endpoints = vec![
        endpoint("localhost", None),
        endpoint("127.5.6.7", Some(HostAddress::V4(0x7F05_0607))),
        endpoint("128.0.0.1", Some(HostAddress::V4(0x8000_0001))),
        endpoint("::2", Some(HostAddress::V6(2))),
    ];
    let retained = retain_local_lhm_endpoints(endpoints, &[]);
    assert_eq!(retained.len(), 1);
    assert_eq!(retained[0].address, "127.5.6.7");
    assert_eq!(retained[0].port, 8085);
}

#[test]
fn sensor_round_reports_first_temperature_then_silence_then_failure() {
    assert_eq!(sweep_replies(&[None, Some(None), Some(Some(47)), Some(Some(60))]), Ok(Some(47)));
    assert_eq!(sweep_replies(&[None, Some(None), None]), Ok(None));
    assert_eq!(sweep_replies(&[None, None]), Err(()));
    assert_eq!(sweep_replies(&[]), Err(()));
    let mut sweep = SensorSweep::new();
    assert_eq!(sweep.answer(None), None);
    assert!(!sweep.responded);
    assert_eq!(sweep.answer(Some(None)), None);
    assert_eq!(sweep.outcome(), Ok(None));
    assert_eq!(sweep.answer(Some(Some(51))), Some(51));
}

#[test]
fn a_response_is_complete_once_its_content_length_is_in() {
    let plain = LhmHttpHeaders { body_start: 40, content_length: Some(10), chunked: false };
    assert!(!response_complete(&plain, 49));
    assert!(response_complete(&plain, 50));
    let chunked = LhmHttpHeaders { body_start: 40, content_length: Some(10), chunked: true };
    assert!(!response_complete(&chunked, 500));
    let open = LhmHttpHeaders { body_start: 40, content_length: None, chunked: false };
    assert!(!response_complete(&open, 500));
    let huge = LhmHttpHeaders { body_start: 40, content_length: Some(usize::MAX), chunked: false };
    assert!(response_complete(&huge, usize::MAX));
}
