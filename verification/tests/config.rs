use dinov2::{Config, ConfigError, DINOv2, EngineShape, Scale};

#[test]
fn scale_tiers_resolve_to_table_dims() {
    let tiers = [
        (Scale::S, 384usize),
        (Scale::B, 768usize),
        (Scale::L, 1024usize),
        (Scale::G, 1536usize),
    ];
    for (tier, dim) in tiers {
        let config = Config {
            scale: Some(tier),
            engine: EngineShape { batch: 1, height: None, width: None },
        };
        let adapter = DINOv2::new(config).unwrap();
        assert_eq!(adapter.dim(), dim);
    }
}

#[test]
fn embedding_dim_method_matches_table() {
    assert_eq!(Scale::S.embedding_dim(), Some(384));
    assert_eq!(Scale::B.embedding_dim(), Some(768));
    assert_eq!(Scale::L.embedding_dim(), Some(1024));
    assert_eq!(Scale::G.embedding_dim(), Some(1536));
    assert_eq!(Scale::N.embedding_dim(), None);
    assert_eq!(Scale::T.embedding_dim(), None);
    assert_eq!(Scale::M.embedding_dim(), None);
    assert_eq!(Scale::X.embedding_dim(), None);
}

#[test]
fn missing_scale_is_rejected() {
    let config = Config {
        scale: None,
        engine: EngineShape { batch: 2, height: Some(224), width: Some(224) },
    };
    let err = DINOv2::new(config).unwrap_err();
    assert_eq!(err, ConfigError::NoScale);
}

#[test]
fn unmapped_tiers_are_unsupported() {
    for tier in [Scale::N, Scale::T, Scale::M, Scale::X] {
        let config = Config {
            scale: Some(tier),
            engine: EngineShape { batch: 1, height: None, width: None },
        };
        let err = DINOv2::new(config).unwrap_err();
        assert_eq!(err, ConfigError::UnsupportedScale(tier));
    }
}

#[test]
fn shape_defaults_to_384() {
    let config = Config {
        scale: Some(Scale::B),
        engine: EngineShape { batch: 8, height: None, width: None },
    };
    let adapter = DINOv2::new(config).unwrap();
    assert_eq!(adapter.height(), 384);
    assert_eq!(adapter.width(), 384);
    assert_eq!(adapter.batch(), 8);
}

#[test]
fn declared_shape_used_verbatim() {
    let config = Config {
        scale: Some(Scale::S),
        engine: EngineShape { batch: 1, height: Some(224), width: Some(224) },
    };
    let adapter = DINOv2::new(config).unwrap();
    assert_eq!(adapter.height(), 224);
    assert_eq!(adapter.width(), 224);

    let mixed = Config {
        scale: Some(Scale::S),
        engine: EngineShape { batch: 1, height: Some(518), width: None },
    };
    let adapter = DINOv2::new(mixed).unwrap();
    assert_eq!(adapter.height(), 518);
    assert_eq!(adapter.width(), 384);
}

#[test]
fn resolved_shape_is_one_record() {
    let config = Config {
        scale: Some(Scale::G),
        engine: EngineShape { batch: 3, height: Some(196), width: Some(196) },
    };
    let adapter = DINOv2::new(config).unwrap();
    let resolved = adapter.resolved();
    assert_eq!(resolved.height, 196);
    assert_eq!(resolved.width, 196);
    assert_eq!(resolved.batch, 3);
    assert_eq!(resolved.dim, 1536);
}
