use complex_server::config::{
    database_file_path, AppConfig, DatabaseConfig, EnvOverrides, RedisConfig, ServerConfig,
    WorkerConfig,
};

fn base() -> AppConfig {
    AppConfig {
        server: ServerConfig { bind: "0.0.0.0:8080".to_string() },
        database: DatabaseConfig { url: "sqlite://data/ledger.db".to_string() },
        redis: RedisConfig {
            url: "redis://127.0.0.1:6379".to_string(),
            pool_size: 16,
            queue_key: "jobs:queue".to_string(),
            result_prefix: "jobs:result:".to_string(),
            result_ttl_seconds: 3600,
        },
        worker: WorkerConfig { concurrency: 4, shutdown_grace_seconds: 10 },
    }
}

fn none() -> EnvOverrides {
    EnvOverrides {
        server_bind: None,
        database_url: None,
        redis_url: None,
        redis_pool_size: None,
        redis_queue_key: None,
        redis_result_prefix: None,
        redis_result_ttl_seconds: None,
        worker_concurrency: None,
        worker_shutdown_grace_seconds: None,
    }
}

#[test]
fn no_overrides_change_nothing() {
    let mut c = base();
    c.apply_env_overrides(none());
    assert_eq!(c.server.bind, "0.0.0.0:8080");
    assert_eq!(c.database.url, "sqlite://data/ledger.db");
    assert_eq!(c.redis.url, "redis://127.0.0.1:6379");
    assert_eq!(c.redis.pool_size, 16);
    assert_eq!(c.worker.concurrency, 4);
}

#[test]
fn overrides_replace_settings() {
    let mut c = base();
    c.apply_env_overrides(EnvOverrides {
        server_bind: Some("127.0.0.1:9000".to_string()),
        database_url: Some("sqlite://other.db".to_string()),
        redis_url: Some("redis://cache:6379".to_string()),
        redis_pool_size: Some("32".to_string()),
        redis_queue_key: Some("q2".to_string()),
        redis_result_prefix: Some("r2:".to_string()),
        redis_result_ttl_seconds: Some("120".to_string()),
        worker_concurrency: Some("+8".to_string()),
        worker_shutdown_grace_seconds: Some("30".to_string()),
    });
    assert_eq!(c.server.bind, "127.0.0.1:9000");
    assert_eq!(c.database.url, "sqlite://other.db");
    assert_eq!(c.redis.url, "redis://cache:6379");
    assert_eq!(c.redis.pool_size, 32);
    assert_eq!(c.worker.concurrency, 8);
    assert_eq!(c.redis.queue_key, "q2");
    assert_eq!(c.redis.result_prefix, "r2:");
    assert_eq!(c.redis.result_ttl_seconds, 120);
    assert_eq!(c.worker.shutdown_grace_seconds, 30);
}

#[test]
fn second_counts_read_as_u64() {
    let mut c = base();
    let mut env = none();
    env.redis_result_ttl_seconds = Some("18446744073709551615".to_string());
    env.worker_shutdown_grace_seconds = Some("18446744073709551616".to_string());
    c.apply_env_overrides(env);
    assert_eq!(c.redis.result_ttl_seconds, u64::MAX);
    assert_eq!(c.worker.shutdown_grace_seconds, 10);
    let mut env = none();
    env.redis_result_ttl_seconds = Some("1h".to_string());
    env.worker_shutdown_grace_seconds = Some("".to_string());
    c.apply_env_overrides(env);
    assert_eq!(c.redis.result_ttl_seconds, u64::MAX);
    assert_eq!(c.worker.shutdown_grace_seconds, 10);
}

#[test]
fn unreadable_counts_are_ignored() {
    let mut c = base();
    let mut env = none();
    env.redis_pool_size = Some("many".to_string());
    env.worker_concurrency = Some("-1".to_string());
    c.apply_env_overrides(env);
    assert_eq!(c.redis.pool_size, 16);
    assert_eq!(c.worker.concurrency, 4);
    let mut env = none();
    env.worker_concurrency = Some(" 3".to_string());
    env.redis_pool_size = Some("99999999999999999999999".to_string());
    c.apply_env_overrides(env);
    assert_eq!(c.worker.concurrency, 4);
    assert_eq!(c.redis.pool_size, 16);
}

#[test]
fn database_paths() {
    assert_eq!(database_file_path("sqlite://data/ledger.db"), "data/ledger.db");
    assert_eq!(database_file_path("sqlite://data/ledger.db?mode=rwc"), "data/ledger.db");
    assert_eq!(database_file_path("data/ledger.db"), "data/ledger.db");
    assert_eq!(database_file_path("sqlite:data.db?x=1?y=2"), "sqlite:data.db");
    assert_eq!(database_file_path(""), "");
    assert_eq!(database_file_path("sqlite://"), "");
}

#[test]
fn numbers_read_as_std_reads_them() {
    let texts = [
        "0", "7", "+7", "+", "-", "-0", "", "007", "12a", "a12", "1_000", "٣", "+-1", "++1",
        "18446744073709551615", "18446744073709551616", "4294967295", "4294967296", " 1", "1 ",
        "99999999999999999999", "00000000000000000000000000042",
    ];
    for t in texts {
        let mut c = base();
        let mut env = none();
        env.redis_pool_size = Some(t.to_string());
        env.redis_result_ttl_seconds = Some(t.to_string());
        c.apply_env_overrides(env);
        assert_eq!(c.redis.pool_size, t.parse::<usize>().unwrap_or(16), "{t:?}");
        assert_eq!(c.redis.result_ttl_seconds, t.parse::<u64>().unwrap_or(3600), "{t:?}");
    }
}
