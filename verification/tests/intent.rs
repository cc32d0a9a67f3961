use chimera_agent::intent::resolve_intent;
use chimera_agent::model::{
    AgentIntent, AgentIntentRequest, AgentIntentResolution, AgentRoutingMode,
    AgentUnsupportedIntentReason,
};

fn resolve(text: &str) -> AgentIntentResolution {
    resolve_intent(AgentIntentRequest { text: text.into() })
}

#[test]
fn resolves_only_current_closed_capabilities() {
    assert_eq!(
        resolve("帮我切换到规则模式"),
        AgentIntentResolution::Resolved {
            intent: AgentIntent::SetRoutingMode {
                mode: AgentRoutingMode::Rule,
            },
        }
    );
    assert_eq!(
        resolve("检查网络"),
        AgentIntentResolution::Resolved {
            intent: AgentIntent::Diagnose,
        }
    );
    assert_eq!(
        resolve("清理残留代理"),
        AgentIntentResolution::Resolved {
            intent: AgentIntent::DisableStaleSystemProxy,
        }
    );
    assert_eq!(
        resolve("帮我开启 TUN"),
        AgentIntentResolution::Resolved {
            intent: AgentIntent::SetTunEnabled { enabled: true },
        }
    );
    assert_eq!(
        resolve("关闭系统代理"),
        AgentIntentResolution::Resolved {
            intent: AgentIntent::SetSystemProxyEnabled { enabled: false },
        }
    );
}

#[test]
fn unsupported_or_future_capabilities_fail_closed() {
    for text in ["", "启动核心", "重启服务", "修改配置文件"] {
        let expected = if text.is_empty() {
            AgentUnsupportedIntentReason::EmptyInput
        } else {
            AgentUnsupportedIntentReason::NoMatchingIntent
        };
        assert_eq!(
            resolve(text),
            AgentIntentResolution::Unsupported { reason: expected }
        );
    }
}

#[test]
fn oversized_input_is_rejected_before_normalization() {
    assert_eq!(
        resolve(&"!".repeat(161)),
        AgentIntentResolution::Unsupported {
            reason: AgentUnsupportedIntentReason::InputTooLong,
        }
    );
    assert_eq!(
        resolve(&"🦀".repeat(161)),
        AgentIntentResolution::Unsupported {
            reason: AgentUnsupportedIntentReason::InputTooLong,
        }
    );
}
