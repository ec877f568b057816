use imei::Imei;

#[test]
fn speed() {
    let mut sum = 0;
    let num_tests = 10000000;

    let tb = chrono::Utc::now();

    for _ in 0..num_tests {
        sum += time_one();
    }

    let td = chrono::Utc::now().signed_duration_since(tb);

    let td_m = td.num_milliseconds();
    let td_s = td.num_seconds();

    let avg_ns = sum / num_tests;
    let avg_ms = avg_ns / num_tests;

    println!("The validation took an average of {avg_ns} nanoseconds ({avg_ms} miliseconds)");
    println!("Validating 10,000,000 imei codes took {td_m} miliseconds ({td_s} seconds)");
}

fn time_one() -> i64 {
    let time_before = chrono::Utc::now();

    assert!(imei::valid("490154203237518"));

    chrono::Utc::now()
        .signed_duration_since(time_before)
        .num_nanoseconds()
        .unwrap()
}

#[test]
fn test_serde() {
    let json = serde_json::to_string(Imei::try_new("354406185514933").unwrap().as_str()).unwrap();
    assert_eq!(json, "\"354406185514933\"");
    let text: String = serde_json::from_str("\"354406185514933\"").unwrap();
    let imei: Imei<String> = Imei::try_new(text).unwrap();
    assert_eq!(imei, Imei::try_new("354406185514933".to_string()).unwrap())
}
