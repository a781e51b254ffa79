#[test]
fn test_run() {
    println!("run")
}
